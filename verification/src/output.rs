//! Output transactions: the crash-safe protocol that stages, promotes and
//! retires files, its journal deltas, and recovery after a restart.

use vstd::prelude::*;

use crate::lookup::{first_index, first_match, lemma_first_index, lemma_first_index_is, lemma_first_index_none, upsert};
use crate::model::{views, Duplicate, SameView};
use crate::{
    ArtifactIdentity, ArtifactIdentityView, ArtifactObservation, ArtifactObservationView, DurableState,
    FileSystemFacts, FileSystemFactsView, OutputDelta, OutputDeltaView, OutputRecoveryAction,
    OutputRecoveryActionView, OutputState, OutputStateView, OutputTransaction, OutputTransactionView,
    RecoveryConflict, RecoveryConflictView, Replacement, RunId,
};

verus! {

/// Whether a transaction belongs to `run_id`.
pub open spec fn of_run(run_id: RunId) -> spec_fn(OutputTransactionView) -> bool {
    |transaction: OutputTransactionView| transaction.run_id == run_id
}

/// The transaction of `run_id`: the first one recorded for it.
pub open spec fn transaction_of(outputs: Seq<OutputTransactionView>, run_id: RunId) -> Option<OutputTransactionView> {
    first_match(outputs, of_run(run_id))
}

/// Position of the transaction of `run_id`.
pub fn find_output(outputs: &Vec<OutputTransaction>, run_id: RunId) -> (found: Option<usize>)
    ensures
        match found {
            Some(index) => index < outputs.len() && index as int == first_index(views(outputs@), of_run(run_id)),
            None => first_index(views(outputs@), of_run(run_id)) == -1,
        },
{
    let ghost entries = views(outputs@);
    let mut index: usize = 0;
    while index < outputs.len()
        invariant
            index <= outputs.len(),
            entries == views(outputs@),
            forall|k: int| 0 <= k < index ==> !of_run(run_id)(#[trigger] entries[k]),
        decreases outputs.len() - index,
    {
        if outputs[index].run_id.0 == run_id.0 {
            proof {
                lemma_first_index_is(entries, of_run(run_id), index as int);
            }
            return Some(index);
        }
        index += 1;
    }
    proof {
        lemma_first_index_none(entries, of_run(run_id));
    }
    None
}

impl OutputTransactionView {
    /// Nothing more will happen to the files: the transaction conflicted or
    /// was abandoned, or its output stands with the original kept or retired
    /// as requested.
    pub open spec fn settled(self) -> bool {
        match self.state {
            OutputStateView::Conflict { .. } | OutputStateView::Abandoned => true,
            OutputStateView::Committed { .. } => self.replacement == Replacement::KeepOriginal,
            OutputStateView::Retired { .. } => self.replacement == Replacement::RetireOriginal,
            _ => false,
        }
    }

    /// The identity of the output once it stands at its final path.
    pub open spec fn promoted(self) -> Option<ArtifactIdentityView> {
        match self.state {
            OutputStateView::Committed { final_identity } => Some(final_identity),
            OutputStateView::RetireIntent { final_identity } => Some(final_identity),
            OutputStateView::Retired { final_identity } => Some(final_identity),
            _ => None,
        }
    }
}

impl OutputTransaction {
    /// Whether nothing more will happen to the transaction's files.
    pub fn is_settled(&self) -> (settled: bool)
        ensures
            settled == self@.settled(),
    {
        match (&self.replacement, &self.state) {
            (_, OutputState::Conflict { .. }) | (_, OutputState::Abandoned) => true,
            (Replacement::KeepOriginal, OutputState::Committed { .. }) => true,
            (Replacement::RetireOriginal, OutputState::Retired { .. }) => true,
            _ => false,
        }
    }

    /// The identity of the output once it has been promoted to its final
    /// path.
    pub fn promoted_identity(&self) -> (identity: Option<&ArtifactIdentity>)
        ensures
            match identity {
                Some(found) => self@.promoted() == Some(found@),
                None => self@.promoted() is None,
            },
    {
        match &self.state {
            OutputState::Committed { final_identity }
            | OutputState::RetireIntent { final_identity }
            | OutputState::Retired { final_identity } => Some(final_identity),
            _ => None,
        }
    }
}

impl OutputDeltaView {
    /// The run whose transaction the delta advances.
    pub open spec fn run(self) -> RunId {
        match self {
            OutputDeltaView::EncodeStarted { transaction } => transaction.run_id,
            OutputDeltaView::OutputReady { run_id, .. } => run_id,
            OutputDeltaView::OutputCommitted { run_id, .. } => run_id,
            OutputDeltaView::RetireOriginalIntent { run_id } => run_id,
            OutputDeltaView::OriginalRetired { run_id } => run_id,
            OutputDeltaView::AbandonStagingIntent { run_id, .. } => run_id,
            OutputDeltaView::Abandoned { run_id } => run_id,
            OutputDeltaView::Conflict { run_id, .. } => run_id,
        }
    }
}

/// The outputs with the transaction of `run_id` moved to `state`; unchanged
/// when the run has no transaction.
pub open spec fn with_state(outputs: Seq<OutputTransactionView>, run_id: RunId, state: OutputStateView) -> Seq<OutputTransactionView> {
    let index = first_index(outputs, of_run(run_id));
    if index >= 0 {
        outputs.update(index, OutputTransactionView { state, ..outputs[index] })
    } else {
        outputs
    }
}

/// The outputs after one delta: a start records the transaction, a
/// retirement step advances only from the state it follows, and every other
/// step sets the run's state.
pub open spec fn fold_output(outputs: Seq<OutputTransactionView>, delta: OutputDeltaView) -> Seq<OutputTransactionView> {
    match delta {
        OutputDeltaView::EncodeStarted { transaction } => upsert(outputs, of_run(transaction.run_id), transaction),
        OutputDeltaView::OutputReady { run_id, staging_identity } => with_state(
            outputs,
            run_id,
            OutputStateView::Ready { staging_identity },
        ),
        OutputDeltaView::OutputCommitted { run_id, final_identity } => with_state(
            outputs,
            run_id,
            OutputStateView::Committed { final_identity },
        ),
        OutputDeltaView::RetireOriginalIntent { run_id } => match transaction_of(outputs, run_id) {
            Some(transaction) => match transaction.state {
                OutputStateView::Committed { final_identity } => with_state(
                    outputs,
                    run_id,
                    OutputStateView::RetireIntent { final_identity },
                ),
                _ => outputs,
            },
            None => outputs,
        },
        OutputDeltaView::OriginalRetired { run_id } => match transaction_of(outputs, run_id) {
            Some(transaction) => match transaction.state {
                OutputStateView::RetireIntent { final_identity } => with_state(
                    outputs,
                    run_id,
                    OutputStateView::Retired { final_identity },
                ),
                _ => outputs,
            },
            None => outputs,
        },
        OutputDeltaView::AbandonStagingIntent { run_id, staging_identity } => with_state(
            outputs,
            run_id,
            OutputStateView::AbandonIntent { staging_identity },
        ),
        OutputDeltaView::Abandoned { run_id } => with_state(outputs, run_id, OutputStateView::Abandoned),
        OutputDeltaView::Conflict { run_id, reason } => with_state(
            outputs,
            run_id,
            OutputStateView::Conflict { reason },
        ),
    }
}

/// Set the state of the transaction of `run_id`, if it has one.
fn update_state(outputs: &mut Vec<OutputTransaction>, run_id: RunId, state: OutputState)
    ensures
        views(final(outputs)@) == with_state(views(old(outputs)@), run_id, state@),
{
    let ghost before = views(outputs@);
    match find_output(outputs, run_id) {
        Some(index) => {
            let mut transaction = outputs[index].duplicate();
            transaction.state = state;
            outputs.set(index, transaction);
            assert(views(outputs@) =~= with_state(before, run_id, state@));
        },
        None => {},
    }
}

impl OutputDelta {
    /// The run whose transaction the delta advances.
    pub fn run_id(&self) -> (run_id: RunId)
        ensures
            run_id == self@.run(),
    {
        match self {
            OutputDelta::EncodeStarted { transaction } => transaction.run_id,
            OutputDelta::OutputReady { run_id, .. }
            | OutputDelta::OutputCommitted { run_id, .. }
            | OutputDelta::RetireOriginalIntent { run_id }
            | OutputDelta::OriginalRetired { run_id }
            | OutputDelta::AbandonStagingIntent { run_id, .. }
            | OutputDelta::Abandoned { run_id }
            | OutputDelta::Conflict { run_id, .. } => *run_id,
        }
    }

    /// Apply the delta to the output ledger.
    pub fn fold_into(&self, outputs: &mut Vec<OutputTransaction>)
        ensures
            views(final(outputs)@) == fold_output(views(old(outputs)@), self@),
    {
        let ghost before = views(outputs@);
        match self {
            OutputDelta::EncodeStarted { transaction } => {
                let recorded = (**transaction).duplicate();
                match find_output(outputs, transaction.run_id) {
                    Some(index) => {
                        outputs.set(index, recorded);
                    },
                    None => {
                        outputs.push(recorded);
                    },
                }
                assert(views(outputs@) =~= fold_output(before, self@));
            },
            OutputDelta::OutputReady { run_id, staging_identity } => {
                update_state(outputs, *run_id, OutputState::Ready { staging_identity: staging_identity.duplicate() });
            },
            OutputDelta::OutputCommitted { run_id, final_identity } => {
                update_state(outputs, *run_id, OutputState::Committed { final_identity: final_identity.duplicate() });
            },
            OutputDelta::RetireOriginalIntent { run_id } => {
                if let Some(index) = find_output(outputs, *run_id) {
                    if let OutputState::Committed { final_identity } = &outputs[index].state {
                        let final_identity = final_identity.duplicate();
                        update_state(outputs, *run_id, OutputState::RetireIntent { final_identity });
                    }
                }
            },
            OutputDelta::OriginalRetired { run_id } => {
                if let Some(index) = find_output(outputs, *run_id) {
                    if let OutputState::RetireIntent { final_identity } = &outputs[index].state {
                        let final_identity = final_identity.duplicate();
                        update_state(outputs, *run_id, OutputState::Retired { final_identity });
                    }
                }
            },
            OutputDelta::AbandonStagingIntent { run_id, staging_identity } => {
                update_state(
                    outputs,
                    *run_id,
                    OutputState::AbandonIntent { staging_identity: staging_identity.duplicate() },
                );
            },
            OutputDelta::Abandoned { run_id } => {
                update_state(outputs, *run_id, OutputState::Abandoned);
            },
            OutputDelta::Conflict { run_id, reason } => {
                update_state(outputs, *run_id, OutputState::Conflict { reason: reason.clone() });
            },
        }
    }
}

/// Whether `delta` is the next legal step of transaction `transaction`:
/// a ready output is the non-empty staging file that was created, a commit
/// promotes the ready content, retirement follows a commit that asked for
/// it, abandonment happens before promotion, and any unsettled transaction
/// may conflict.
pub open spec fn step_allowed(transaction: OutputTransactionView, delta: OutputDeltaView) -> bool {
    match delta {
        OutputDeltaView::EncodeStarted { .. } => false,
        OutputDeltaView::OutputReady { staging_identity, .. } => {
            &&& transaction.state is Started
            &&& staging_identity.destructive.file_id == transaction.initial_staging_identity.destructive.file_id
            &&& staging_identity.destructive.size > 0
        },
        OutputDeltaView::OutputCommitted { final_identity, .. } => match transaction.state {
            OutputStateView::Ready { staging_identity } => final_identity.content_key == staging_identity.content_key,
            _ => false,
        },
        OutputDeltaView::RetireOriginalIntent { .. } => {
            &&& transaction.state is Committed
            &&& transaction.replacement == Replacement::RetireOriginal
        },
        OutputDeltaView::OriginalRetired { .. } => transaction.state is RetireIntent,
        OutputDeltaView::AbandonStagingIntent { .. } => transaction.state is Started || transaction.state is Ready,
        OutputDeltaView::Abandoned { .. } => transaction.state is Started || transaction.state is AbandonIntent,
        OutputDeltaView::Conflict { .. } => !transaction.settled(),
    }
}

/// Whether a delta may be appended to the output ledger: a start opens a
/// new transaction at its beginning, and every other step advances the
/// run's existing transaction legally.
pub open spec fn output_delta_validation(outputs: Seq<OutputTransactionView>, delta: OutputDeltaView) -> Result<(), &'static str> {
    match delta {
        OutputDeltaView::EncodeStarted { transaction } => {
            if transaction_of(outputs, transaction.run_id) is Some {
                Err("output transaction already exists")
            } else if !(transaction.state is Started) {
                Err("a new output transaction must be started")
            } else {
                Ok(())
            }
        },
        _ => match transaction_of(outputs, delta.run()) {
            None => Err("output transaction does not exist"),
            Some(transaction) => {
                if step_allowed(transaction, delta) {
                    Ok(())
                } else {
                    Err("output transition does not follow the recorded state")
                }
            },
        },
    }
}

fn step_is_allowed(transaction: &OutputTransaction, delta: &OutputDelta) -> (allowed: bool)
    ensures
        allowed == step_allowed(transaction@, delta@),
{
    match delta {
        OutputDelta::EncodeStarted { .. } => false,
        OutputDelta::OutputReady { staging_identity, .. } => {
            let started = match &transaction.state {
                OutputState::Started => true,
                _ => false,
            };
            started && staging_identity.destructive.file_id == transaction.initial_staging_identity.destructive.file_id
                && staging_identity.destructive.size > 0
        },
        OutputDelta::OutputCommitted { final_identity, .. } => match &transaction.state {
            OutputState::Ready { staging_identity } => final_identity.content_key.same_view(&staging_identity.content_key),
            _ => false,
        },
        OutputDelta::RetireOriginalIntent { .. } => match (&transaction.state, &transaction.replacement) {
            (OutputState::Committed { .. }, Replacement::RetireOriginal) => true,
            _ => false,
        },
        OutputDelta::OriginalRetired { .. } => match &transaction.state {
            OutputState::RetireIntent { .. } => true,
            _ => false,
        },
        OutputDelta::AbandonStagingIntent { .. } => match &transaction.state {
            OutputState::Started | OutputState::Ready { .. } => true,
            _ => false,
        },
        OutputDelta::Abandoned { .. } => match &transaction.state {
            OutputState::Started | OutputState::AbandonIntent { .. } => true,
            _ => false,
        },
        OutputDelta::Conflict { .. } => !transaction.is_settled(),
    }
}

/// Check that an output delta is a legal step of the durable output ledger.
pub fn validate_output_delta(durable: &DurableState, delta: &OutputDelta) -> (result: Result<(), &'static str>)
    ensures
        result == output_delta_validation(durable@.outputs, delta@),
{
    proof {
        assert(durable@.outputs =~= views(durable.outputs@));
    }
    let found = find_output(&durable.outputs, delta.run_id());
    if let OutputDelta::EncodeStarted { transaction } = delta {
        if found.is_some() {
            return Err("output transaction already exists");
        }
        return match transaction.state {
            OutputState::Started => Ok(()),
            _ => Err("a new output transaction must be started"),
        };
    }
    match found {
        None => Err("output transaction does not exist"),
        Some(index) => {
            if step_is_allowed(&durable.outputs[index], delta) {
                Ok(())
            } else {
                Err("output transition does not follow the recorded state")
            }
        },
    }
}

/// A settled transaction is final: the ledger accepts no further step of
/// its run.
pub proof fn lemma_settled_transactions_are_final(outputs: Seq<OutputTransactionView>, delta: OutputDeltaView)
    requires
        transaction_of(outputs, delta.run()) is Some,
        transaction_of(outputs, delta.run())->0.settled(),
    ensures
        output_delta_validation(outputs, delta) is Err,
{
    if let OutputDeltaView::EncodeStarted { transaction } = delta {
        assert(transaction.run_id == delta.run());
    }
}

/// The recovery action that resolves a conflict.
pub open spec fn conflict_action(reason: Seq<char>) -> OutputRecoveryActionView {
    OutputRecoveryActionView::Conflict(RecoveryConflictView { reason })
}

/// Whether what is at the final path is what was there before promotion.
pub open spec fn matches_preimage(observation: ArtifactObservationView, preimage: Option<ArtifactIdentityView>) -> bool {
    match (observation, preimage) {
        (ArtifactObservationView::Absent, None) => true,
        (ArtifactObservationView::Present(actual), Some(expected)) => actual == expected,
        _ => false,
    }
}

/// Recovery of a started transaction: no staging file means nothing was
/// written and the transaction is abandoned; a staging file, empty or
/// partly written, is abandoned through a durable intent naming it.
pub open spec fn started_recovery(transaction: OutputTransactionView, facts: FileSystemFactsView) -> OutputRecoveryActionView {
    match facts.staging {
        ArtifactObservationView::Absent => OutputRecoveryActionView::Append(
            OutputDeltaView::Abandoned { run_id: transaction.run_id },
        ),
        ArtifactObservationView::Present(identity) => OutputRecoveryActionView::Append(
            OutputDeltaView::AbandonStagingIntent { run_id: transaction.run_id, staging_identity: identity },
        ),
    }
}

/// Recovery of a ready transaction: the output already promoted commits;
/// the intact staging file with an untouched final path is promoted;
/// anything else conflicts.
pub open spec fn ready_recovery(
    transaction: OutputTransactionView,
    staging_identity: ArtifactIdentityView,
    facts: FileSystemFactsView,
) -> OutputRecoveryActionView {
    if facts.staging is Absent && facts.final_path is Present && facts.final_path->0.content_key
        == staging_identity.content_key {
        OutputRecoveryActionView::Append(
            OutputDeltaView::OutputCommitted { run_id: transaction.run_id, final_identity: facts.final_path->0 },
        )
    } else if facts.staging == ArtifactObservationView::Present(staging_identity) && matches_preimage(
        facts.final_path,
        transaction.final_preimage,
    ) {
        OutputRecoveryActionView::Promote {
            staging: transaction.staging,
            final_path: transaction.final_path,
            expected_staging: staging_identity,
            expected_final: transaction.final_preimage,
        }
    } else {
        conflict_action("output files do not match the recorded ready state"@)
    }
}

/// Recovery of a committed transaction: the output must be intact; then
/// the original is kept, or its retirement begins.
pub open spec fn committed_recovery(
    transaction: OutputTransactionView,
    final_identity: ArtifactIdentityView,
    facts: FileSystemFactsView,
) -> OutputRecoveryActionView {
    if facts.final_path != ArtifactObservationView::Present(final_identity) {
        conflict_action("committed output identity changed"@)
    } else if transaction.replacement == Replacement::KeepOriginal {
        OutputRecoveryActionView::Nothing
    } else {
        OutputRecoveryActionView::Append(OutputDeltaView::RetireOriginalIntent { run_id: transaction.run_id })
    }
}

/// Recovery of a retirement in progress: the output must be intact; a gone
/// original is retired, the untouched original is deleted, and a changed
/// one conflicts.
pub open spec fn retire_recovery(
    transaction: OutputTransactionView,
    final_identity: ArtifactIdentityView,
    facts: FileSystemFactsView,
) -> OutputRecoveryActionView {
    if facts.final_path != ArtifactObservationView::Present(final_identity) {
        conflict_action("output changed before original retirement"@)
    } else {
        match facts.original {
            ArtifactObservationView::Absent => OutputRecoveryActionView::Append(
                OutputDeltaView::OriginalRetired { run_id: transaction.run_id },
            ),
            ArtifactObservationView::Present(original) => {
                if original == transaction.input_identity {
                    OutputRecoveryActionView::DeleteOriginal {
                        path: transaction.input,
                        expected_original: original,
                        expected_final: final_identity,
                    }
                } else {
                    conflict_action("original changed before retirement"@)
                }
            },
        }
    }
}

/// Recovery of an abandonment in progress: a gone staging file completes
/// it, the recorded one is deleted, and a changed one conflicts.
pub open spec fn abandon_recovery(
    transaction: OutputTransactionView,
    staging_identity: ArtifactIdentityView,
    facts: FileSystemFactsView,
) -> OutputRecoveryActionView {
    match facts.staging {
        ArtifactObservationView::Absent => OutputRecoveryActionView::Append(
            OutputDeltaView::Abandoned { run_id: transaction.run_id },
        ),
        ArtifactObservationView::Present(actual) => {
            if actual == staging_identity {
                OutputRecoveryActionView::DeleteStaging { path: transaction.staging, expected: staging_identity }
            } else {
                conflict_action("staging changed after abandonment intent"@)
            }
        },
    }
}

/// The one step recovery takes next for a transaction, given what is on
/// disk. Settled transactions need nothing.
pub open spec fn recovery(transaction: OutputTransactionView, facts: FileSystemFactsView) -> OutputRecoveryActionView {
    match transaction.state {
        OutputStateView::Started => started_recovery(transaction, facts),
        OutputStateView::Ready { staging_identity } => ready_recovery(transaction, staging_identity, facts),
        OutputStateView::Committed { final_identity } => committed_recovery(transaction, final_identity, facts),
        OutputStateView::RetireIntent { final_identity } => retire_recovery(transaction, final_identity, facts),
        OutputStateView::AbandonIntent { staging_identity } => abandon_recovery(transaction, staging_identity, facts),
        _ => OutputRecoveryActionView::Nothing,
    }
}

fn conflict(reason: &str) -> (action: OutputRecoveryAction)
    ensures
        action@ == conflict_action(reason@),
{
    OutputRecoveryAction::Conflict(RecoveryConflict { reason: String::from_str(reason) })
}

fn observation_matches_preimage(observation: &ArtifactObservation, preimage: &Option<ArtifactIdentity>) -> (matches: bool)
    ensures
        matches == matches_preimage(observation@, match preimage { Some(p) => Some(p@), None => None }),
{
    match (observation, preimage) {
        (ArtifactObservation::Absent, None) => true,
        (ArtifactObservation::Present(actual), Some(expected)) => actual.same_view(expected),
        _ => false,
    }
}

fn present_as(observation: &ArtifactObservation, identity: &ArtifactIdentity) -> (present: bool)
    ensures
        present == (observation@ == ArtifactObservationView::Present(identity@)),
{
    match observation {
        ArtifactObservation::Present(actual) => actual.same_view(identity),
        ArtifactObservation::Absent => false,
    }
}

fn recover_started(transaction: &OutputTransaction, facts: &FileSystemFacts) -> (action: OutputRecoveryAction)
    ensures
        action@ == started_recovery(transaction@, facts@),
{
    match &facts.staging {
        ArtifactObservation::Absent => OutputRecoveryAction::Append(OutputDelta::Abandoned { run_id: transaction.run_id }),
        ArtifactObservation::Present(identity) => OutputRecoveryAction::Append(
            OutputDelta::AbandonStagingIntent { run_id: transaction.run_id, staging_identity: identity.duplicate() },
        ),
    }
}

fn recover_ready(
    transaction: &OutputTransaction,
    staging_identity: &ArtifactIdentity,
    facts: &FileSystemFacts,
) -> (action: OutputRecoveryAction)
    ensures
        action@ == ready_recovery(transaction@, staging_identity@, facts@),
{
    if let (ArtifactObservation::Absent, ArtifactObservation::Present(final_identity)) = (&facts.staging, &facts.final_path) {
        if final_identity.content_key.same_view(&staging_identity.content_key) {
            return OutputRecoveryAction::Append(
                OutputDelta::OutputCommitted { run_id: transaction.run_id, final_identity: final_identity.duplicate() },
            );
        }
    }
    if present_as(&facts.staging, staging_identity) && observation_matches_preimage(
        &facts.final_path,
        &transaction.final_preimage,
    ) {
        let expected_final = match &transaction.final_preimage {
            Some(preimage) => Some(preimage.duplicate()),
            None => None,
        };
        return OutputRecoveryAction::Promote {
            staging: transaction.staging.duplicate(),
            final_path: transaction.final_path.duplicate(),
            expected_staging: staging_identity.duplicate(),
            expected_final,
        };
    }
    conflict("output files do not match the recorded ready state")
}

fn recover_committed(
    transaction: &OutputTransaction,
    final_identity: &ArtifactIdentity,
    facts: &FileSystemFacts,
) -> (action: OutputRecoveryAction)
    ensures
        action@ == committed_recovery(transaction@, final_identity@, facts@),
{
    if !present_as(&facts.final_path, final_identity) {
        return conflict("committed output identity changed");
    }
    match transaction.replacement {
        Replacement::KeepOriginal => OutputRecoveryAction::Nothing,
        Replacement::RetireOriginal => OutputRecoveryAction::Append(
            OutputDelta::RetireOriginalIntent { run_id: transaction.run_id },
        ),
    }
}

fn recover_retire_intent(
    transaction: &OutputTransaction,
    final_identity: &ArtifactIdentity,
    facts: &FileSystemFacts,
) -> (action: OutputRecoveryAction)
    ensures
        action@ == retire_recovery(transaction@, final_identity@, facts@),
{
    if !present_as(&facts.final_path, final_identity) {
        return conflict("output changed before original retirement");
    }
    match &facts.original {
        ArtifactObservation::Absent => OutputRecoveryAction::Append(OutputDelta::OriginalRetired { run_id: transaction.run_id }),
        ArtifactObservation::Present(original) => {
            if original.same_view(&transaction.input_identity) {
                OutputRecoveryAction::DeleteOriginal {
                    path: transaction.input.duplicate(),
                    expected_original: original.duplicate(),
                    expected_final: final_identity.duplicate(),
                }
            } else {
                conflict("original changed before retirement")
            }
        },
    }
}

fn recover_abandon_intent(
    transaction: &OutputTransaction,
    staging_identity: &ArtifactIdentity,
    facts: &FileSystemFacts,
) -> (action: OutputRecoveryAction)
    ensures
        action@ == abandon_recovery(transaction@, staging_identity@, facts@),
{
    match &facts.staging {
        ArtifactObservation::Absent => OutputRecoveryAction::Append(OutputDelta::Abandoned { run_id: transaction.run_id }),
        ArtifactObservation::Present(actual) => {
            if actual.same_view(staging_identity) {
                OutputRecoveryAction::DeleteStaging {
                    path: transaction.staging.duplicate(),
                    expected: staging_identity.duplicate(),
                }
            } else {
                conflict("staging changed after abandonment intent")
            }
        },
    }
}

/// Decide the next recovery step for a transaction from what is on disk.
pub fn recover_output(transaction: &OutputTransaction, facts: &FileSystemFacts) -> (action: OutputRecoveryAction)
    ensures
        action@ == recovery(transaction@, facts@),
{
    match &transaction.state {
        OutputState::Started => recover_started(transaction, facts),
        OutputState::Ready { staging_identity } => recover_ready(transaction, staging_identity, facts),
        OutputState::Committed { final_identity } => recover_committed(transaction, final_identity, facts),
        OutputState::RetireIntent { final_identity } => recover_retire_intent(transaction, final_identity, facts),
        OutputState::AbandonIntent { staging_identity } => recover_abandon_intent(transaction, staging_identity, facts),
        OutputState::Retired { .. } | OutputState::Abandoned | OutputState::Conflict { .. } => OutputRecoveryAction::Nothing,
    }
}

/// Recovery never touches the files of a settled transaction: it does
/// nothing, or reports a conflict when a kept output has changed.
pub proof fn lemma_settled_needs_no_file_work(transaction: OutputTransactionView, facts: FileSystemFactsView)
    requires
        transaction.settled(),
    ensures
        recovery(transaction, facts) is Nothing || recovery(transaction, facts) is Conflict,
{
}

/// Every journal step recovery proposes is a legal step of the ledger
/// that holds the transaction.
pub proof fn lemma_recovery_appends_legal_steps(
    outputs: Seq<OutputTransactionView>,
    transaction: OutputTransactionView,
    facts: FileSystemFactsView,
)
    requires
        transaction_of(outputs, transaction.run_id) == Some(transaction),
        recovery(transaction, facts) is Append,
    ensures
        recovery(transaction, facts)->Append_0.run() == transaction.run_id,
        output_delta_validation(outputs, recovery(transaction, facts)->Append_0) is Ok,
{
}

/// Recovery deletes an original only beside its promoted output: a
/// retirement in progress whose final path does not hold exactly the
/// promoted output conflicts, and a deletion of the original is proposed
/// only for a retirement whose final path holds the promoted output and
/// whose original is untouched.
pub proof fn lemma_original_deleted_only_beside_its_output(transaction: OutputTransactionView, facts: FileSystemFactsView)
    ensures
        transaction.state is RetireIntent && facts.final_path != ArtifactObservationView::Present(
            transaction.state->RetireIntent_final_identity,
        ) ==> recovery(transaction, facts) is Conflict,
        recovery(transaction, facts) is DeleteOriginal ==> {
            &&& transaction.state is RetireIntent
            &&& facts.final_path == ArtifactObservationView::Present(transaction.state->RetireIntent_final_identity)
            &&& recovery(transaction, facts)->DeleteOriginal_expected_final == transaction.state->RetireIntent_final_identity
            &&& facts.original == ArtifactObservationView::Present(transaction.input_identity)
            &&& recovery(transaction, facts)->DeleteOriginal_expected_original == transaction.input_identity
            &&& recovery(transaction, facts)->DeleteOriginal_path == transaction.input
        },
{
}

/// Recovering a retirement in progress whose promoted output stands intact:
/// a gone original completes the retirement, the untouched original is
/// deleted, and an original that changed conflicts and is kept.
pub proof fn lemma_retirement_recovery_follows_the_original(
    transaction: OutputTransactionView,
    facts: FileSystemFactsView,
    final_identity: ArtifactIdentityView,
)
    requires
        transaction.state == (OutputStateView::RetireIntent { final_identity }),
        facts.final_path == ArtifactObservationView::Present(final_identity),
    ensures
        facts.original is Absent ==> recovery(transaction, facts) == OutputRecoveryActionView::Append(
            OutputDeltaView::OriginalRetired { run_id: transaction.run_id },
        ),
        facts.original == ArtifactObservationView::Present(transaction.input_identity) ==> recovery(transaction, facts)
            == (OutputRecoveryActionView::DeleteOriginal {
            path: transaction.input,
            expected_original: transaction.input_identity,
            expected_final: final_identity,
        }),
        facts.original is Present && facts.original != ArtifactObservationView::Present(transaction.input_identity)
            ==> recovery(transaction, facts) is Conflict,
{
}

} // verus!
