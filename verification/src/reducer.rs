//! The reducer: every command is judged against the current state and
//! answered with the durable, configuration and ephemeral deltas it causes,
//! the effects the driver must perform, and a reply.

use vstd::prelude::*;

use crate::lookup::{entry_views, find_key, first_index, keyed, lookup, upsert};
use crate::model::{views, Duplicate, SameView};
use crate::settings::settings_validation;
use crate::state::{contains_path, find_item, has_id, lemma_durable_views};
use crate::analysis::{begin_generation, fold_analysis_spec, validate_mutation};
use crate::queue_commands::{apply_queue, queue_outcome};
use crate::state::{fold, fold_config, folded};
use crate::worker_commands::{apply_worker, worker_outcome};
use crate::{
    AnalysisCommand, AnalysisCommandView, AnalysisDelta, AnalysisDeltaView, AnalysisMutationError,
    Command, CommandView, ProjectionCommand, SystemCommand, SystemCommandView, Telemetry,
    AppState, AppStateView, Applied, AppliedView, ConfigDelta, ConfigDeltaView, DurableDelta,
    DurableDeltaView, DurableState, DurableStateView, Effect, EffectView, EphemeralDelta,
    EphemeralDeltaView, HistoryCommand, HistoryCommandView, ImportPath, ImportPathView,
    ParkedRecord, ParkedRecordView, QueueItem, QueueItemStateView, QueueItemView, Reply,
    ReplyView, RunId, SessionAggregates, SessionCommand, SessionState, Settings, SettingsCommand,
    SettingsCommandView, SettingsView, ToolAvailability, ToolAvailabilityView, ToolsState,
    ToolsStateView, VendorActivity, VendorActivityView, VendorCommand,
    AnalysisSnapshot, AnalysisSnapshotView, QueueItemEdit, QueueItemEditView,
};
use crate::execution::undiscovered_tools;
use crate::journal::empty_durable;
use crate::settings::default_settings;

verus! {

/// An accepted command with nothing to do yet.
pub open spec fn accepted_view() -> AppliedView {
    AppliedView {
        durable: Seq::empty(),
        config: Seq::empty(),
        ephemeral: Seq::empty(),
        effects: Seq::empty(),
        reply: ReplyView::Accepted,
    }
}

/// A rejection: the reply and a stream notice carry the same reason.
pub open spec fn rejection(applied: AppliedView, reason: Seq<char>) -> AppliedView {
    AppliedView {
        ephemeral: applied.ephemeral.push(EphemeralDeltaView::CommandRejected { reason }),
        reply: ReplyView::Rejected { reason },
        ..applied
    }
}

/// A command rejected before it did anything.
pub open spec fn rejected_view(reason: Seq<char>) -> AppliedView {
    rejection(accepted_view(), reason)
}

/// The result of a command that only emits one ephemeral delta.
pub open spec fn announcing(delta: EphemeralDeltaView) -> AppliedView {
    AppliedView { ephemeral: seq![delta], ..accepted_view() }
}

impl Applied {
    /// An accepted command with nothing to do yet.
    pub fn accepted() -> (applied: Self)
        ensures
            applied@ == accepted_view(),
    {
        let applied = Applied {
            durable: Vec::new(),
            config: Vec::new(),
            ephemeral: Vec::new(),
            effects: Vec::new(),
            reply: Reply::Accepted,
        };
        assert(applied@.durable =~= Seq::<DurableDeltaView>::empty());
        assert(applied@.config =~= Seq::<ConfigDeltaView>::empty());
        assert(applied@.ephemeral =~= Seq::<EphemeralDeltaView>::empty());
        assert(applied@.effects =~= Seq::<EffectView>::empty());
        applied
    }

    /// A command rejected for `reason`.
    pub fn rejected(reason: &str) -> (applied: Self)
        ensures
            applied@ == rejected_view(reason@),
    {
        let mut applied = Applied::accepted();
        applied.reject(String::from_str(reason));
        applied
    }

    /// Reject the command: the reply and a stream notice carry the reason.
    pub fn reject(&mut self, reason: String)
        ensures
            final(self)@ == rejection(old(self)@, reason@),
    {
        let ghost before = self@;
        self.ephemeral.push(EphemeralDelta::CommandRejected { reason: reason.clone() });
        self.reply = Reply::Rejected { reason };
        assert(self@.ephemeral =~= before.ephemeral.push(EphemeralDeltaView::CommandRejected { reason: reason@ }));
    }

    /// Append a durable delta.
    pub fn record(&mut self, delta: DurableDelta)
        ensures
            final(self)@ == (AppliedView { durable: old(self)@.durable.push(delta@), ..old(self)@ }),
    {
        let ghost before = self@;
        self.durable.push(delta);
        assert(self@.durable =~= before.durable.push(delta@));
    }

    /// Append an ephemeral delta.
    pub fn announce(&mut self, delta: EphemeralDelta)
        ensures
            final(self)@ == (AppliedView { ephemeral: old(self)@.ephemeral.push(delta@), ..old(self)@ }),
    {
        let ghost before = self@;
        self.ephemeral.push(delta);
        assert(self@.ephemeral =~= before.ephemeral.push(delta@));
    }

    /// Append an effect for the driver.
    pub fn request(&mut self, effect: Effect)
        ensures
            final(self)@ == (AppliedView { effects: old(self)@.effects.push(effect@), ..old(self)@ }),
    {
        let ghost before = self@;
        self.effects.push(effect);
        assert(self@.effects =~= before.effects.push(effect@));
    }
}

/// Whether a queue item holds the active claim: reserved, claimed or
/// running.
pub open spec fn is_active(item: QueueItemView) -> bool {
    item.state is Reserved || item.state is Claimed || item.state is Running
}

/// The run of the active queue item, if any.
pub open spec fn active_run_of(queue: Seq<QueueItemView>) -> Option<RunId> {
    let index = first_index(queue, |item: QueueItemView| is_active(item));
    if index >= 0 {
        match queue[index].state {
            QueueItemStateView::Reserved { run_id, .. } => Some(run_id),
            QueueItemStateView::Claimed { run_id, .. } => Some(run_id),
            QueueItemStateView::Running { run_id, .. } => Some(run_id),
            _ => None,
        }
    } else {
        None
    }
}

/// The run of the active queue item, if any.
pub fn active_run(queue: &Vec<QueueItem>) -> (run: Option<RunId>)
    ensures
        run == active_run_of(views(queue@)),
{
    let ghost items = views(queue@);
    let ghost active = |item: QueueItemView| is_active(item);
    let mut index: usize = 0;
    while index < queue.len()
        invariant
            index <= queue.len(),
            items == views(queue@),
            active == (|item: QueueItemView| is_active(item)),
            forall|k: int| 0 <= k < index ==> !active(#[trigger] items[k]),
        decreases queue.len() - index,
    {
        assert(items[index as int] == queue@[index as int]@);
        match &queue[index].state {
            crate::QueueItemState::Reserved { run_id, .. }
            | crate::QueueItemState::Claimed { run_id, .. }
            | crate::QueueItemState::Running { run_id, .. } => {
                proof {
                    crate::lookup::lemma_first_index_is(items, active, index as int);
                }
                return Some(*run_id);
            },
            _ => {},
        }
        index += 1;
    }
    proof {
        crate::lookup::lemma_first_index_none(items, active);
    }
    None
}

/// Settings are validated, written back, and changed in the state when
/// they differ.
pub open spec fn settings_outcome(state: AppStateView, command: SettingsCommandView) -> AppliedView {
    match command {
        SettingsCommandView::Update { settings } => match settings_validation(settings) {
            Err(reason) => rejected_view(reason@),
            Ok(_) => AppliedView {
                config: if settings != state.settings {
                    seq![ConfigDeltaView::SettingsChanged { settings }]
                } else {
                    Seq::empty()
                },
                effects: seq![EffectView::WriteSettings { settings }],
                ..accepted_view()
            },
        },
    }
}

fn apply_settings(state: &AppState, command: SettingsCommand) -> (applied: Applied)
    ensures
        applied@ == settings_outcome(state@, command@),
{
    match command {
        SettingsCommand::Update { settings } => {
            if let Err(reason) = settings.validate() {
                return Applied::rejected(reason);
            }
            let mut applied = Applied::accepted();
            if !settings.same_view(&state.settings) {
                let ghost before = applied@;
                applied.config.push(ConfigDelta::SettingsChanged { settings: settings.duplicate() });
                assert(applied@.config =~= seq![ConfigDeltaView::SettingsChanged { settings: settings@ }]);
            }
            applied.request(Effect::WriteSettings { settings });
            applied
        },
    }
}

/// The tools picture changes only when it differs.
pub open spec fn tools_outcome(state: AppStateView, next: ToolsStateView) -> AppliedView {
    if state.tools != next {
        announcing(EphemeralDeltaView::ToolsChanged(next))
    } else {
        accepted_view()
    }
}

fn tools_transition(state: &AppState, next: ToolsState) -> (applied: Applied)
    ensures
        applied@ == tools_outcome(state@, next@),
{
    let mut applied = Applied::accepted();
    if !state.tools.same_view(&next) {
        applied.announce(EphemeralDelta::ToolsChanged(next));
    }
    applied
}

/// Whether a vendor worker is, or is about to be, running.
pub open spec fn vendor_busy(activity: VendorActivityView) -> bool {
    activity is Checking || activity is Downloading || activity is Installing
}

/// Whether the installed tool binaries may be being replaced.
pub open spec fn vendor_swapping(activity: VendorActivityView) -> bool {
    activity is Downloading || activity is Installing
}

fn vendor_worker_active(activity: &VendorActivity) -> (busy: bool)
    ensures
        busy == vendor_busy(activity@),
{
    match activity {
        VendorActivity::Checking | VendorActivity::Downloading { .. } | VendorActivity::Installing => true,
        VendorActivity::Idle | VendorActivity::Failed { .. } => false,
    }
}

fn vendor_swapping_tools(activity: &VendorActivity) -> (swapping: bool)
    ensures
        swapping == vendor_swapping(activity@),
{
    match activity {
        VendorActivity::Downloading { .. } | VendorActivity::Installing => true,
        _ => false,
    }
}

/// Vendor operations run one at a time; an install swaps binaries, so it
/// needs an idle session with no active item.
pub open spec fn vendor_outcome(state: AppStateView, command: VendorCommand) -> AppliedView {
    if vendor_busy(state.tools.activity) {
        rejected_view("a vendor operation is already in progress"@)
    } else {
        match command {
            VendorCommand::Install => {
                if state.session != SessionState::Idle {
                    rejected_view("vendor install requires an idle session"@)
                } else if active_run_of(state.durable.queue) is Some {
                    rejected_view("vendor install cannot start while a queue item is active"@)
                } else {
                    let transition = tools_outcome(
                        state,
                        ToolsStateView {
                            activity: VendorActivityView::Downloading { received: 0, total: None },
                            ..state.tools
                        },
                    );
                    AppliedView { effects: transition.effects.push(EffectView::VendorInstall), ..transition }
                }
            },
            VendorCommand::Check => {
                let transition = tools_outcome(
                    state,
                    ToolsStateView { activity: VendorActivityView::Checking, ..state.tools },
                );
                AppliedView { effects: transition.effects.push(EffectView::VendorCheck), ..transition }
            },
        }
    }
}

fn apply_vendor(state: &AppState, command: VendorCommand) -> (applied: Applied)
    ensures
        applied@ == vendor_outcome(state@, command),
{
    if vendor_worker_active(&state.tools.activity) {
        return Applied::rejected("a vendor operation is already in progress");
    }
    match command {
        VendorCommand::Install => {
            if state.session != SessionState::Idle {
                return Applied::rejected("vendor install requires an idle session");
            }
            if active_run(&state.durable.queue).is_some() {
                proof {
                    lemma_durable_views(state.durable);
                }
                return Applied::rejected("vendor install cannot start while a queue item is active");
            }
            proof {
                lemma_durable_views(state.durable);
            }
            let next = ToolsState {
                availability: state.tools.availability.duplicate(),
                activity: VendorActivity::Downloading { received: 0, total: None },
                update_available: state.tools.update_available,
            };
            let mut applied = tools_transition(state, next);
            applied.request(Effect::VendorInstall);
            applied
        },
        VendorCommand::Check => {
            let next = ToolsState {
                availability: state.tools.availability.duplicate(),
                activity: VendorActivity::Checking,
                update_available: state.tools.update_available,
            };
            let mut applied = tools_transition(state, next);
            applied.request(Effect::VendorCheck);
            applied
        },
    }
}

/// Whether an import path is already parked or adopted.
pub open spec fn known_import(durable: DurableStateView, path: ImportPathView) -> bool {
    lookup(durable.parked, path) is Some || durable.adopted_imports.contains(path)
}

/// The records of an import batch that are new: neither parked, adopted,
/// nor earlier in the same batch.
pub open spec fn fresh_imports(
    durable: DurableStateView,
    records: Seq<(ImportPathView, ParkedRecordView)>,
) -> Seq<(ImportPathView, ParkedRecordView)>
    decreases records.len(),
{
    if records.len() == 0 {
        Seq::empty()
    } else {
        let earlier = fresh_imports(durable, records.drop_last());
        let path = records.last().0;
        if known_import(durable, path) || exists|k: int| 0 <= k < earlier.len() && #[trigger] earlier[k].0 == path {
            earlier
        } else {
            earlier.push(records.last())
        }
    }
}

/// A count that saturates at the largest `u32`.
pub open spec fn saturated_count(count: int) -> u32 {
    if count > u32::MAX {
        u32::MAX
    } else {
        count as u32
    }
}

/// An import batch parks its new records in one delta and reports how many
/// were parked and skipped; a re-import is a counted no-op.
pub open spec fn history_outcome(state: AppStateView, command: HistoryCommandView) -> AppliedView {
    match command {
        HistoryCommandView::Import { records } => {
            let fresh = fresh_imports(state.durable, records);
            AppliedView {
                durable: if fresh.len() > 0 {
                    seq![DurableDeltaView::HistoryImported { records: fresh }]
                } else {
                    Seq::empty()
                },
                reply: ReplyView::Imported {
                    parked: saturated_count(fresh.len() as int),
                    skipped: saturated_count(records.len() - fresh.len()),
                },
                ..accepted_view()
            }
        },
    }
}

fn in_batch(fresh: &Vec<(ImportPath, ParkedRecord)>, path: &ImportPath) -> (found: bool)
    ensures
        found == exists|k: int| 0 <= k < fresh@.len() && #[trigger] entry_views(fresh@)[k].0 == path@,
{
    let mut index: usize = 0;
    while index < fresh.len()
        invariant
            index <= fresh.len(),
            forall|k: int| 0 <= k < index ==> #[trigger] entry_views(fresh@)[k].0 != path@,
        decreases fresh.len() - index,
    {
        assert(entry_views(fresh@)[index as int] == fresh@[index as int]@);
        if fresh[index].0.same_view(path) {
            assert(entry_views(fresh@)[index as int].0 == path@);
            return true;
        }
        index += 1;
    }
    false
}

#[verifier::loop_isolation(false)]
fn apply_history(state: &AppState, command: HistoryCommand) -> (applied: Applied)
    ensures
        applied@ == history_outcome(state@, command@),
{
    proof {
        lemma_durable_views(state.durable);
    }
    match command {
        HistoryCommand::Import { records } => {
            let ghost incoming = entry_views(records@);
            let mut fresh: Vec<(ImportPath, ParkedRecord)> = Vec::new();
            let mut skipped: u32 = 0;
            let mut index: usize = 0;
            while index < records.len()
                invariant
                    index <= records.len(),
                    incoming == entry_views(records@),
                    entry_views(fresh@) == fresh_imports(state@.durable, incoming.subrange(0, index as int)),
                    skipped == saturated_count(index - fresh@.len()),
                    fresh@.len() <= index,
                decreases records.len() - index,
            {
                assert(incoming.subrange(0, index as int + 1).drop_last() =~= incoming.subrange(0, index as int));
                assert(incoming[index as int] == records@[index as int]@);
                let path = &records[index].0;
                let parked = find_key(&state.durable.parked, path).is_some();
                let adopted = contains_path(&state.durable.adopted_imports, path);
                let repeated = in_batch(&fresh, path);
                if parked || adopted || repeated {
                    skipped = skipped.saturating_add(1);
                } else {
                    let ghost prior = entry_views(fresh@);
                    fresh.push(records[index].duplicate());
                    assert(entry_views(fresh@) =~= prior.push(incoming[index as int]));
                }
                index += 1;
            }
            assert(incoming.subrange(0, incoming.len() as int) =~= incoming);
            let parked: u32 = if fresh.len() > 4_294_967_295usize {
                u32::MAX
            } else {
                fresh.len() as u32
            };
            let mut applied = Applied::accepted();
            if fresh.len() > 0 {
                applied.record(DurableDelta::HistoryImported { records: fresh });
                assert(applied@.durable =~= seq![DurableDeltaView::HistoryImported {
                    records: fresh_imports(state@.durable, incoming),
                }]);
            }
            applied.reply = Reply::Imported { parked, skipped };
            applied
        },
    }
}

/// The aggregates of a session that has just started.
pub open spec fn zero_aggregates() -> SessionAggregates {
    SessionAggregates {
        completed: 0,
        failed: 0,
        skipped: 0,
        stopped: 0,
        not_worthwhile: 0,
        analyzed: 0,
        remuxed: 0,
        input_bytes: 0,
        output_bytes: 0,
        encode_duration_ms: 0,
    }
}

impl Default for SessionAggregates {
    fn default() -> (aggregates: Self)
        ensures
            aggregates == zero_aggregates(),
    {
        SessionAggregates {
            completed: 0,
            failed: 0,
            skipped: 0,
            stopped: 0,
            not_worthwhile: 0,
            analyzed: 0,
            remuxed: 0,
            input_bytes: 0,
            output_bytes: 0,
            encode_duration_ms: 0,
        }
    }
}

/// Starting needs usable tools and no install in progress; stopping after
/// the current item idles at once when nothing is active; a forced stop
/// kills the active run.
pub open spec fn session_outcome(state: AppStateView, command: SessionCommand) -> AppliedView {
    match command {
        SessionCommand::Start => {
            if state.session != SessionState::Idle {
                rejected_view("session is already active"@)
            } else if let ToolAvailabilityView::Missing { detail, .. } = state.tools.availability {
                rejected_view("media tools are unavailable: "@ + detail)
            } else if vendor_swapping(state.tools.activity) {
                rejected_view("a vendor install is in progress"@)
            } else {
                AppliedView {
                    ephemeral: seq![
                        EphemeralDeltaView::SessionChanged(SessionState::Running),
                        EphemeralDeltaView::SessionAggregates(zero_aggregates()),
                    ],
                    effects: seq![EffectView::StartWorker],
                    ..accepted_view()
                }
            }
        },
        SessionCommand::StopAfterCurrent => {
            if state.session != SessionState::Running {
                rejected_view("session is not running"@)
            } else if active_run_of(state.durable.queue) is Some {
                announcing(EphemeralDeltaView::SessionChanged(SessionState::StopAfterCurrent))
            } else {
                announcing(EphemeralDeltaView::SessionChanged(SessionState::Idle))
            }
        },
        SessionCommand::ForceStop => {
            if state.session != SessionState::Running && state.session != SessionState::StopAfterCurrent {
                rejected_view("session is not running"@)
            } else if let Some(run_id) = active_run_of(state.durable.queue) {
                AppliedView {
                    ephemeral: seq![EphemeralDeltaView::SessionChanged(SessionState::ForceStopping)],
                    effects: seq![EffectView::KillActiveRun { run_id }],
                    ..accepted_view()
                }
            } else {
                announcing(EphemeralDeltaView::SessionChanged(SessionState::Idle))
            }
        },
    }
}

fn apply_session(state: &AppState, command: SessionCommand) -> (applied: Applied)
    ensures
        applied@ == session_outcome(state@, command),
{
    proof {
        lemma_durable_views(state.durable);
    }
    match command {
        SessionCommand::Start => {
            if state.session != SessionState::Idle {
                return Applied::rejected("session is already active");
            }
            if let ToolAvailability::Missing { detail, .. } = &state.tools.availability {
                let mut applied = Applied::accepted();
                applied.reject(String::from_str("media tools are unavailable: ").concat(detail.as_str()));
                return applied;
            }
            if vendor_swapping_tools(&state.tools.activity) {
                return Applied::rejected("a vendor install is in progress");
            }
            let mut applied = Applied::accepted();
            applied.announce(EphemeralDelta::SessionChanged(SessionState::Running));
            applied.announce(EphemeralDelta::SessionAggregates(SessionAggregates::default()));
            applied.request(Effect::StartWorker);
            assert(applied@.ephemeral =~= seq![
                EphemeralDeltaView::SessionChanged(SessionState::Running),
                EphemeralDeltaView::SessionAggregates(zero_aggregates()),
            ]);
            assert(applied@.effects =~= seq![EffectView::StartWorker]);
            applied
        },
        SessionCommand::StopAfterCurrent => {
            if state.session != SessionState::Running {
                return Applied::rejected("session is not running");
            }
            let next = if active_run(&state.durable.queue).is_some() {
                SessionState::StopAfterCurrent
            } else {
                SessionState::Idle
            };
            let mut applied = Applied::accepted();
            applied.announce(EphemeralDelta::SessionChanged(next));
            applied
        },
        SessionCommand::ForceStop => {
            if state.session != SessionState::Running && state.session != SessionState::StopAfterCurrent {
                return Applied::rejected("session is not running");
            }
            let mut applied = Applied::accepted();
            match active_run(&state.durable.queue) {
                Some(run_id) => {
                    applied.announce(EphemeralDelta::SessionChanged(SessionState::ForceStopping));
                    applied.request(Effect::KillActiveRun { run_id });
                },
                None => {
                    applied.announce(EphemeralDelta::SessionChanged(SessionState::Idle));
                },
            }
            applied
        },
    }
}

/// The reason an invalid analysis mutation is rejected with.
pub open spec fn mutation_rejection(error: AnalysisMutationError) -> &'static str {
    match error {
        AnalysisMutationError::EmptyRoots => "Analysis mutation rejected: EmptyRoots",
        AnalysisMutationError::GenerationExhausted => "Analysis mutation rejected: GenerationExhausted",
        AnalysisMutationError::InvalidActivityTransition => "Analysis mutation rejected: InvalidActivityTransition",
        AnalysisMutationError::ResetIsNotNext => "Analysis mutation rejected: ResetIsNotNext",
        AnalysisMutationError::StaleGeneration => "Analysis mutation rejected: StaleGeneration",
        AnalysisMutationError::UnknownRow => "Analysis mutation rejected: UnknownRow",
    }
}

fn mutation_reason(error: AnalysisMutationError) -> (reason: &'static str)
    ensures
        reason == mutation_rejection(error),
{
    match error {
        AnalysisMutationError::EmptyRoots => "Analysis mutation rejected: EmptyRoots",
        AnalysisMutationError::GenerationExhausted => "Analysis mutation rejected: GenerationExhausted",
        AnalysisMutationError::InvalidActivityTransition => "Analysis mutation rejected: InvalidActivityTransition",
        AnalysisMutationError::ResetIsNotNext => "Analysis mutation rejected: ResetIsNotNext",
        AnalysisMutationError::StaleGeneration => "Analysis mutation rejected: StaleGeneration",
        AnalysisMutationError::UnknownRow => "Analysis mutation rejected: UnknownRow",
    }
}

/// The analysis delta a command plans and the reply it earns, or why it
/// cannot plan one.
pub open spec fn analysis_plan(state: AppStateView, command: AnalysisCommandView) -> Result<(AnalysisDeltaView, ReplyView), Seq<char>> {
    match command {
        AnalysisCommandView::Begin { roots } => match begin_generation(state.analysis, roots) {
            Err(AnalysisMutationError::EmptyRoots) => Err("Analysis discovery requires at least one root"@),
            Err(_) => Err("Analysis generation id space is exhausted"@),
            Ok(delta) => match delta {
                AnalysisDeltaView::Reset { snapshot } => match snapshot.current {
                    Some(generation) => Ok((delta, ReplyView::AnalysisStarted { generation: generation.id })),
                    None => Err("Analysis generation Reset is empty"@),
                },
                _ => Err("Analysis generation allocator returned a live delta"@),
            },
        },
        AnalysisCommandView::UpsertRows { generation, rows } => Ok(
            (AnalysisDeltaView::RowsUpserted { generation, rows }, ReplyView::Accepted),
        ),
        AnalysisCommandView::SetActivity { generation, activity } => Ok(
            (AnalysisDeltaView::ActivityChanged { generation, activity }, ReplyView::Accepted),
        ),
    }
}

/// An analysis command publishes its delta when the read model accepts it.
pub open spec fn analysis_outcome(state: AppStateView, command: AnalysisCommandView) -> AppliedView {
    match analysis_plan(state, command) {
        Err(reason) => rejected_view(reason),
        Ok((delta, reply)) => match validate_mutation(state.analysis, delta) {
            Err(error) => rejected_view(mutation_rejection(error)@),
            Ok(_) => AppliedView { ephemeral: seq![EphemeralDeltaView::Analysis(delta)], reply, ..accepted_view() },
        },
    }
}

fn apply_analysis_command(state: &AppState, command: AnalysisCommand) -> (applied: Applied)
    ensures
        applied@ == analysis_outcome(state@, command@),
{
    let mut reply = Reply::Accepted;
    let delta = match command {
        AnalysisCommand::Begin { roots } => {
            let delta = match crate::analysis::begin_analysis_generation(&state.analysis, roots) {
                Ok(delta) => delta,
                Err(AnalysisMutationError::EmptyRoots) => {
                    return Applied::rejected("Analysis discovery requires at least one root");
                },
                Err(_) => {
                    return Applied::rejected("Analysis generation id space is exhausted");
                },
            };
            match &delta {
                AnalysisDelta::Reset { snapshot } => match &snapshot.current {
                    Some(generation) => {
                        reply = Reply::AnalysisStarted { generation: generation.id };
                    },
                    None => {
                        return Applied::rejected("Analysis generation Reset is empty");
                    },
                },
                _ => {
                    return Applied::rejected("Analysis generation allocator returned a live delta");
                },
            }
            delta
        },
        AnalysisCommand::UpsertRows { generation, rows } => AnalysisDelta::RowsUpserted { generation, rows },
        AnalysisCommand::SetActivity { generation, activity } => AnalysisDelta::ActivityChanged { generation, activity },
    };
    if let Err(error) = crate::analysis::validate_analysis_mutation(&state.analysis, &delta) {
        return Applied::rejected(mutation_reason(error));
    }
    let mut applied = Applied::accepted();
    applied.announce(EphemeralDelta::Analysis(delta));
    applied.reply = reply;
    applied
}

/// Real UTC offsets stay within a day.
pub const MAX_UTC_OFFSET_MINUTES: i32 = 1_440i32;

/// The outcome of a command.
pub open spec fn command_outcome(state: AppStateView, command: CommandView) -> AppliedView {
    match command {
        CommandView::Analysis(command) => analysis_outcome(state, command),
        CommandView::Queue(command) => queue_outcome(state, command),
        CommandView::Session(command) => session_outcome(state, command),
        CommandView::Settings(command) => settings_outcome(state, command),
        CommandView::Worker(command) => worker_outcome(state, command),
        CommandView::Vendor(command) => vendor_outcome(state, command),
        CommandView::Projection(ProjectionCommand::RequestStatistics { utc_offset_minutes }) => {
            if utc_offset_minutes < -MAX_UTC_OFFSET_MINUTES || utc_offset_minutes > MAX_UTC_OFFSET_MINUTES {
                rejected_view("UTC offset is outside a plausible range"@)
            } else {
                AppliedView {
                    effects: seq![EffectView::PublishStatistics { utc_offset_minutes }],
                    ..accepted_view()
                }
            }
        },
        CommandView::History(command) => history_outcome(state, command),
        CommandView::System(SystemCommandView::Shutdown) => AppliedView {
            effects: seq![EffectView::StopDriver],
            ..accepted_view()
        },
        CommandView::System(SystemCommandView::ToolsDiscovered { availability, update_available }) => tools_outcome(
            state,
            ToolsStateView { availability, activity: state.tools.activity, update_available },
        ),
        CommandView::System(SystemCommandView::VendorProgress { activity }) => tools_outcome(
            state,
            ToolsStateView { activity, ..state.tools },
        ),
    }
}

/// The durable state after folding `deltas` in order.
pub open spec fn durable_after(durable: DurableStateView, deltas: Seq<DurableDeltaView>) -> DurableStateView
    decreases deltas.len(),
{
    if deltas.len() == 0 {
        durable
    } else {
        folded(durable_after(durable, deltas.drop_last()), deltas.last())
    }
}

/// The settings after the configuration deltas: the last change wins.
pub open spec fn settings_after(settings: SettingsView, config: Seq<ConfigDeltaView>) -> SettingsView {
    if config.len() == 0 {
        settings
    } else {
        match config.last() {
            ConfigDeltaView::SettingsChanged { settings: changed } => changed,
        }
    }
}

/// Whether a telemetry sample belongs to `run_id`.
pub open spec fn telemetry_of(run_id: RunId) -> spec_fn(Telemetry) -> bool {
    |sample: Telemetry| sample.run_id == run_id
}

/// Whether a telemetry sample belongs to another run than `run_id`.
pub open spec fn telemetry_not_of(run_id: RunId) -> spec_fn(Telemetry) -> bool {
    |sample: Telemetry| sample.run_id != run_id
}

/// The application state after one ephemeral delta.
pub open spec fn with_ephemeral(state: AppStateView, delta: EphemeralDeltaView) -> AppStateView {
    match delta {
        EphemeralDeltaView::Analysis(change) => AppStateView {
            analysis: if validate_mutation(state.analysis, change) is Ok {
                fold_analysis_spec(state.analysis, change)
            } else {
                state.analysis
            },
            ..state
        },
        EphemeralDeltaView::SessionChanged(session) => AppStateView { session, ..state },
        EphemeralDeltaView::SessionAggregates(aggregates) => AppStateView { aggregates, ..state },
        EphemeralDeltaView::Telemetry(sample) => AppStateView {
            telemetry: upsert(state.telemetry, telemetry_of(sample.run_id), sample),
            ..state
        },
        EphemeralDeltaView::TelemetryCleared { run_id } => AppStateView {
            telemetry: state.telemetry.filter(telemetry_not_of(run_id)),
            ..state
        },
        EphemeralDeltaView::ToolsChanged(tools) => AppStateView { tools, ..state },
        _ => state,
    }
}

/// The application state after the ephemeral deltas, in order.
pub open spec fn ephemeral_after(state: AppStateView, deltas: Seq<EphemeralDeltaView>) -> AppStateView
    decreases deltas.len(),
{
    if deltas.len() == 0 {
        state
    } else {
        with_ephemeral(ephemeral_after(state, deltas.drop_last()), deltas.last())
    }
}

/// The application state once a command's deltas are applied: durable
/// deltas fold into the durable state, configuration into the settings, and
/// ephemeral deltas into the live state.
pub open spec fn after_applied(state: AppStateView, applied: AppliedView) -> AppStateView {
    ephemeral_after(
        AppStateView {
            durable: durable_after(state.durable, applied.durable),
            settings: settings_after(state.settings, applied.config),
            ..state
        },
        applied.ephemeral,
    )
}

fn record_telemetry(telemetry: &mut Vec<Telemetry>, sample: Telemetry)
    ensures
        final(telemetry)@ == upsert(old(telemetry)@, telemetry_of(sample.run_id), sample),
{
    let ghost before = telemetry@;
    let mut index: usize = 0;
    while index < telemetry.len()
        invariant
            index <= telemetry.len(),
            telemetry@ == before,
            before == old(telemetry)@,
            forall|k: int| 0 <= k < index ==> !telemetry_of(sample.run_id)(#[trigger] before[k]),
        decreases telemetry.len() - index,
    {
        if telemetry[index].run_id.0 == sample.run_id.0 {
            proof {
                crate::lookup::lemma_first_index_is(before, telemetry_of(sample.run_id), index as int);
            }
            telemetry.set(index, sample);
            return;
        }
        index += 1;
    }
    proof {
        crate::lookup::lemma_first_index_none(before, telemetry_of(sample.run_id));
    }
    telemetry.push(sample);
}

#[verifier::loop_isolation(false)]
fn clear_telemetry(telemetry: &mut Vec<Telemetry>, run_id: RunId)
    ensures
        final(telemetry)@ == old(telemetry)@.filter(telemetry_not_of(run_id)),
{
    let ghost before = telemetry@;
    let mut kept: Vec<Telemetry> = Vec::new();
    let mut index: usize = 0;
    while index < telemetry.len()
        invariant
            index <= telemetry.len(),
            telemetry@ == before,
            kept@ == before.subrange(0, index as int).filter(telemetry_not_of(run_id)),
        decreases telemetry.len() - index,
    {
        proof {
            crate::state::lemma_filter_prefix_step(before, telemetry_not_of(run_id), index as int);
        }
        if telemetry[index].run_id.0 != run_id.0 {
            kept.push(telemetry[index]);
        }
        index += 1;
    }
    assert(before.subrange(0, before.len() as int) =~= before);
    *telemetry = kept;
}

fn apply_ephemeral(state: &mut AppState, delta: &EphemeralDelta)
    ensures
        final(state)@ == with_ephemeral(old(state)@, delta@),
{
    match delta {
        EphemeralDelta::Analysis(change) => {
            let _ = crate::analysis::apply_analysis_mutation(&mut state.analysis, change);
        },
        EphemeralDelta::SessionChanged(session) => {
            state.session = *session;
        },
        EphemeralDelta::SessionAggregates(aggregates) => {
            state.aggregates = *aggregates;
        },
        EphemeralDelta::Telemetry(sample) => record_telemetry(&mut state.telemetry, *sample),
        EphemeralDelta::TelemetryCleared { run_id } => clear_telemetry(&mut state.telemetry, *run_id),
        EphemeralDelta::ToolsChanged(tools) => {
            state.tools = tools.duplicate();
        },
        _ => {},
    }
}

/// Judge a command against the state.
fn judge(state: &AppState, command: Command) -> (applied: Applied)
    ensures
        applied@ == command_outcome(state@, command@),
{
    match command {
        Command::Analysis(command) => apply_analysis_command(state, command),
        Command::Queue(command) => apply_queue(state, command),
        Command::Session(command) => apply_session(state, command),
        Command::Settings(command) => apply_settings(state, command),
        Command::Worker(command) => apply_worker(state, command),
        Command::Vendor(command) => apply_vendor(state, command),
        Command::Projection(ProjectionCommand::RequestStatistics { utc_offset_minutes }) => {
            if utc_offset_minutes < -MAX_UTC_OFFSET_MINUTES || utc_offset_minutes > MAX_UTC_OFFSET_MINUTES {
                Applied::rejected("UTC offset is outside a plausible range")
            } else {
                let mut applied = Applied::accepted();
                applied.request(Effect::PublishStatistics { utc_offset_minutes });
                applied
            }
        },
        Command::History(command) => apply_history(state, command),
        Command::System(SystemCommand::Shutdown) => {
            let mut applied = Applied::accepted();
            applied.request(Effect::StopDriver);
            applied
        },
        Command::System(SystemCommand::ToolsDiscovered { availability, update_available }) => {
            let next = ToolsState { availability, activity: state.tools.activity.duplicate(), update_available };
            tools_transition(state, next)
        },
        Command::System(SystemCommand::VendorProgress { activity }) => {
            let next = ToolsState {
                availability: state.tools.availability.duplicate(),
                activity,
                update_available: state.tools.update_available,
            };
            tools_transition(state, next)
        },
    }
}

/// Fold what a command caused into the state.
fn commit(state: &mut AppState, applied: &Applied)
    ensures
        final(state)@ == after_applied(old(state)@, applied@),
{
    let ghost start = state@;
    let ghost durable_deltas = views(applied.durable@);
    let mut index: usize = 0;
    while index < applied.durable.len()
        invariant
            index <= applied.durable.len(),
            durable_deltas == views(applied.durable@),
            state@ == (AppStateView { durable: durable_after(start.durable, durable_deltas.subrange(0, index as int)), ..start }),
        decreases applied.durable.len() - index,
    {
        assert(durable_deltas.subrange(0, index as int + 1).drop_last() =~= durable_deltas.subrange(0, index as int));
        assert(durable_deltas[index as int] == applied.durable@[index as int]@);
        fold(&mut state.durable, &applied.durable[index]);
        index += 1;
    }
    assert(durable_deltas.subrange(0, durable_deltas.len() as int) =~= durable_deltas);
    let ghost config = views(applied.config@);
    let mut position: usize = 0;
    while position < applied.config.len()
        invariant
            position <= applied.config.len(),
            config == views(applied.config@),
            state@ == (AppStateView {
                durable: durable_after(start.durable, durable_deltas),
                settings: settings_after(start.settings, config.subrange(0, position as int)),
                ..start
            }),
        decreases applied.config.len() - position,
    {
        assert(config[position as int] == applied.config@[position as int]@);
        fold_config(&mut state.settings, &applied.config[position]);
        position += 1;
    }
    assert(config.subrange(0, config.len() as int) =~= config);
    let ghost middle = state@;
    let ghost announced = views(applied.ephemeral@);
    let mut k: usize = 0;
    while k < applied.ephemeral.len()
        invariant
            k <= applied.ephemeral.len(),
            announced == views(applied.ephemeral@),
            state@ == ephemeral_after(middle, announced.subrange(0, k as int)),
        decreases applied.ephemeral.len() - k,
    {
        assert(announced.subrange(0, k as int + 1).drop_last() =~= announced.subrange(0, k as int));
        assert(announced[k as int] == applied.ephemeral@[k as int]@);
        apply_ephemeral(state, &applied.ephemeral[k]);
        k += 1;
    }
    assert(announced.subrange(0, announced.len() as int) =~= announced);
}


/// Apply a command: judge it against the state, then fold what it caused
/// into the state. Durable deltas fold exactly as a journal replay would.
pub fn apply(state: &mut AppState, command: Command) -> (applied: Applied)
    ensures
        applied@ == command_outcome(old(state)@, command@),
        final(state)@ == after_applied(old(state)@, applied@),
{
    let applied = judge(state, command);
    commit(state, &applied);
    applied
}

/// A rejected command is inert: it journals nothing, changes no settings
/// and asks the driver for nothing, and its reason reaches both the reply
/// and the stream.
pub proof fn lemma_rejections_are_inert(state: AppStateView, command: CommandView)
    requires
        command_outcome(state, command).reply is Rejected,
    ensures
        command_outcome(state, command).durable.len() == 0,
        command_outcome(state, command).config.len() == 0,
        command_outcome(state, command).effects.len() == 0,
        command_outcome(state, command).ephemeral == seq![
            EphemeralDeltaView::CommandRejected { reason: command_outcome(state, command).reply->Rejected_reason },
        ],
{
    match command {
        CommandView::Analysis(c) => {
            match analysis_plan(state, c) {
                Err(_) => {},
                Ok((delta, reply)) => {
                    if let AnalysisCommandView::Begin { roots } = c {
                        if let Ok(planned) = begin_generation(state.analysis, roots) {
                            if let AnalysisDeltaView::Reset { snapshot } = planned {
                                assert(snapshot.current is Some);
                            }
                        }
                    }
                },
            }
        },
        CommandView::Queue(c) => {
            if let crate::QueueCommandView::AddMany { requests } = c {
                assert(crate::queue_commands::add_batch(state.durable, requests) is None);
            }
        },
        CommandView::Worker(c) => {},
        _ => {},
    }
}


impl Default for SessionState {
    /// No session runs.
    fn default() -> (session: Self)
        ensures
            session == SessionState::Idle,
    {
        SessionState::Idle
    }
}

impl Default for VendorActivity {
    /// The vendor subsystem does nothing.
    fn default() -> (activity: Self)
        ensures
            activity@ == VendorActivityView::Idle,
    {
        VendorActivity::Idle
    }
}

/// The tool picture before discovery reports: tools unusable, vendor idle,
/// no update offered.
pub open spec fn initial_tools() -> ToolsStateView {
    ToolsStateView {
        availability: undiscovered_tools(),
        activity: VendorActivityView::Idle,
        update_available: false,
    }
}

impl Default for ToolsState {
    fn default() -> (tools: Self)
        ensures
            tools@ == initial_tools(),
    {
        ToolsState {
            availability: ToolAvailability::default(),
            activity: VendorActivity::Idle,
            update_available: false,
        }
    }
}

/// The state of a fresh start: empty durable state, default settings, no
/// session, zero aggregates, no telemetry, undiscovered tools and no
/// Analysis generation.
pub open spec fn initial_state() -> AppStateView {
    AppStateView {
        durable: empty_durable(),
        settings: default_settings(),
        session: SessionState::Idle,
        aggregates: zero_aggregates(),
        telemetry: Seq::empty(),
        tools: initial_tools(),
        analysis: AnalysisSnapshotView { current: None },
    }
}

impl Default for AppState {
    fn default() -> (state: Self)
        ensures
            state@ == initial_state(),
    {
        let state = AppState {
            durable: DurableState::default(),
            settings: Settings::default(),
            session: SessionState::Idle,
            aggregates: SessionAggregates::default(),
            telemetry: Vec::new(),
            tools: ToolsState::default(),
            analysis: AnalysisSnapshot::default(),
        };
        assert(state@.telemetry =~= Seq::<Telemetry>::empty());
        state
    }
}

impl Default for QueueItemEdit {
    /// An edit that keeps every value.
    fn default() -> (edit: Self)
        ensures
            edit@ == (QueueItemEditView { operation: None, intent: None, output_target: None, overwrite: None }),
    {
        QueueItemEdit { operation: None, intent: None, output_target: None, overwrite: None }
    }
}

} // verus!
