//! Domain types and their mathematical views.
#![allow(unused_imports)]

use vstd::prelude::*;

use crate::model::{Duplicate, SameView, Plain};
use crate::{DestructiveIdentity, RunId};

verus! {

/// Content identity of a file: a hash of its bytes, computed by the engine.
#[derive(Clone, Debug, PartialEq, Eq)]
pub struct ContentKey(pub String);

/// The mathematical value of a [`ContentKey`].
pub struct ContentKeyView(pub Seq<char>);

impl View for ContentKey {
    type V = ContentKeyView;

    open spec fn view(&self) -> ContentKeyView {
        ContentKeyView(self.0@)
    }
}

impl Duplicate for ContentKey {
    fn duplicate(&self) -> (copy: Self) {
        ContentKey(self.0.clone())
    }
}

impl SameView for ContentKey {
    fn same_view(&self, other: &Self) -> (same: bool) {
        (self.0.same_view(&other.0))
    }
}

/// A produced or observed artifact: its content and its stat identity.
#[derive(Clone, Debug, PartialEq, Eq)]
pub struct ArtifactIdentity {
    pub content_key: ContentKey,
    pub destructive: DestructiveIdentity,
}

/// The mathematical value of a [`ArtifactIdentity`].
pub struct ArtifactIdentityView {
    pub content_key: ContentKeyView,
    pub destructive: DestructiveIdentity,
}

impl View for ArtifactIdentity {
    type V = ArtifactIdentityView;

    open spec fn view(&self) -> ArtifactIdentityView {
        ArtifactIdentityView {
            content_key: self.content_key@,
            destructive: self.destructive,
        }
    }
}

impl Duplicate for ArtifactIdentity {
    fn duplicate(&self) -> (copy: Self) {
        ArtifactIdentity {
            content_key: self.content_key.duplicate(),
            destructive: self.destructive,
        }
    }
}

impl SameView for ArtifactIdentity {
    fn same_view(&self, other: &Self) -> (same: bool) {
        (self.content_key.same_view(&other.content_key))
            && (self.destructive == other.destructive)
    }
}

/// What is found at a path during recovery.
#[derive(Clone, Debug, PartialEq, Eq)]
pub enum ArtifactObservation {
    Absent,
    Present(ArtifactIdentity),
}

/// The mathematical value of a [`ArtifactObservation`].
pub enum ArtifactObservationView {
    Absent,
    Present(ArtifactIdentityView),
}

impl View for ArtifactObservation {
    type V = ArtifactObservationView;

    open spec fn view(&self) -> ArtifactObservationView {
        match self {
            ArtifactObservation::Absent => ArtifactObservationView::Absent,
            ArtifactObservation::Present(f0) => ArtifactObservationView::Present(f0@),
        }
    }
}

impl Duplicate for ArtifactObservation {
    fn duplicate(&self) -> (copy: Self) {
        match self {
            ArtifactObservation::Absent => ArtifactObservation::Absent,
            ArtifactObservation::Present(f0) => ArtifactObservation::Present((*f0).duplicate()),
        }
    }
}

impl SameView for ArtifactObservation {
    fn same_view(&self, other: &Self) -> (same: bool) {
        match (self, other) {
            (ArtifactObservation::Absent, ArtifactObservation::Absent) => true,
            (ArtifactObservation::Present(a0), ArtifactObservation::Present(b0)) => ((*a0).same_view(&(*b0))),
            _ => false,
        }
    }
}

/// Whether a settled output retires the original.
#[derive(Clone, Copy, Debug, PartialEq, Eq, Structural)]
pub enum Replacement {
    KeepOriginal,
    RetireOriginal,
}

impl View for Replacement {
    type V = Replacement;

    open spec fn view(&self) -> Replacement {
        *self
    }
}

impl Duplicate for Replacement {
    fn duplicate(&self) -> (copy: Self) {
        *self
    }
}

impl SameView for Replacement {
    fn same_view(&self, other: &Self) -> (same: bool) {
        *self == *other
    }
}

impl Plain for Replacement {
    proof fn lemma_view_is_self(&self) {
    }
}

/// Where one output transaction stands.
#[derive(Clone, Debug, PartialEq, Eq)]
pub enum OutputState {
    Started,
    Ready { staging_identity: ArtifactIdentity },
    Committed { final_identity: ArtifactIdentity },
    RetireIntent { final_identity: ArtifactIdentity },
    Retired { final_identity: ArtifactIdentity },
    AbandonIntent { staging_identity: ArtifactIdentity },
    Abandoned,
    Conflict { reason: String },
}

/// The mathematical value of a [`OutputState`].
pub enum OutputStateView {
    Started,
    Ready { staging_identity: ArtifactIdentityView },
    Committed { final_identity: ArtifactIdentityView },
    RetireIntent { final_identity: ArtifactIdentityView },
    Retired { final_identity: ArtifactIdentityView },
    AbandonIntent { staging_identity: ArtifactIdentityView },
    Abandoned,
    Conflict { reason: Seq<char> },
}

impl View for OutputState {
    type V = OutputStateView;

    open spec fn view(&self) -> OutputStateView {
        match self {
            OutputState::Started => OutputStateView::Started,
            OutputState::Ready { staging_identity } => OutputStateView::Ready { staging_identity: staging_identity@ },
            OutputState::Committed { final_identity } => OutputStateView::Committed { final_identity: final_identity@ },
            OutputState::RetireIntent { final_identity } => OutputStateView::RetireIntent { final_identity: final_identity@ },
            OutputState::Retired { final_identity } => OutputStateView::Retired { final_identity: final_identity@ },
            OutputState::AbandonIntent { staging_identity } => OutputStateView::AbandonIntent { staging_identity: staging_identity@ },
            OutputState::Abandoned => OutputStateView::Abandoned,
            OutputState::Conflict { reason } => OutputStateView::Conflict { reason: reason@ },
        }
    }
}

impl Duplicate for OutputState {
    fn duplicate(&self) -> (copy: Self) {
        match self {
            OutputState::Started => OutputState::Started,
            OutputState::Ready { staging_identity } => OutputState::Ready { staging_identity: (*staging_identity).duplicate() },
            OutputState::Committed { final_identity } => OutputState::Committed { final_identity: (*final_identity).duplicate() },
            OutputState::RetireIntent { final_identity } => OutputState::RetireIntent { final_identity: (*final_identity).duplicate() },
            OutputState::Retired { final_identity } => OutputState::Retired { final_identity: (*final_identity).duplicate() },
            OutputState::AbandonIntent { staging_identity } => OutputState::AbandonIntent { staging_identity: (*staging_identity).duplicate() },
            OutputState::Abandoned => OutputState::Abandoned,
            OutputState::Conflict { reason } => OutputState::Conflict { reason: (*reason).clone() },
        }
    }
}

impl SameView for OutputState {
    fn same_view(&self, other: &Self) -> (same: bool) {
        match (self, other) {
            (OutputState::Started, OutputState::Started) => true,
            (OutputState::Ready { staging_identity: a_staging_identity }, OutputState::Ready { staging_identity: b_staging_identity }) => ((*a_staging_identity).same_view(&(*b_staging_identity))),
            (OutputState::Committed { final_identity: a_final_identity }, OutputState::Committed { final_identity: b_final_identity }) => ((*a_final_identity).same_view(&(*b_final_identity))),
            (OutputState::RetireIntent { final_identity: a_final_identity }, OutputState::RetireIntent { final_identity: b_final_identity }) => ((*a_final_identity).same_view(&(*b_final_identity))),
            (OutputState::Retired { final_identity: a_final_identity }, OutputState::Retired { final_identity: b_final_identity }) => ((*a_final_identity).same_view(&(*b_final_identity))),
            (OutputState::AbandonIntent { staging_identity: a_staging_identity }, OutputState::AbandonIntent { staging_identity: b_staging_identity }) => ((*a_staging_identity).same_view(&(*b_staging_identity))),
            (OutputState::Abandoned, OutputState::Abandoned) => true,
            (OutputState::Conflict { reason: a_reason }, OutputState::Conflict { reason: b_reason }) => ((*a_reason).same_view(&(*b_reason))),
            _ => false,
        }
    }
}

/// The durable ledger of one run's output promotion.
#[derive(Clone, Debug, PartialEq, Eq)]
pub struct OutputTransaction {
    pub run_id: RunId,
    pub input: String,
    pub input_identity: ArtifactIdentity,
    pub staging: String,
    pub initial_staging_identity: ArtifactIdentity,
    pub final_path: String,
    pub final_preimage: Option<ArtifactIdentity>,
    pub replacement: Replacement,
    pub state: OutputState,
}

/// The mathematical value of a [`OutputTransaction`].
pub struct OutputTransactionView {
    pub run_id: RunId,
    pub input: Seq<char>,
    pub input_identity: ArtifactIdentityView,
    pub staging: Seq<char>,
    pub initial_staging_identity: ArtifactIdentityView,
    pub final_path: Seq<char>,
    pub final_preimage: Option<ArtifactIdentityView>,
    pub replacement: Replacement,
    pub state: OutputStateView,
}

impl View for OutputTransaction {
    type V = OutputTransactionView;

    open spec fn view(&self) -> OutputTransactionView {
        OutputTransactionView {
            run_id: self.run_id,
            input: self.input@,
            input_identity: self.input_identity@,
            staging: self.staging@,
            initial_staging_identity: self.initial_staging_identity@,
            final_path: self.final_path@,
            final_preimage: match self.final_preimage { Some(x) => Some(x@), None => None },
            replacement: self.replacement,
            state: self.state@,
        }
    }
}

impl Duplicate for OutputTransaction {
    fn duplicate(&self) -> (copy: Self) {
        OutputTransaction {
            run_id: self.run_id,
            input: self.input.clone(),
            input_identity: self.input_identity.duplicate(),
            staging: self.staging.clone(),
            initial_staging_identity: self.initial_staging_identity.duplicate(),
            final_path: self.final_path.clone(),
            final_preimage: match &self.final_preimage { Some(x) => Some(x.duplicate()), None => None },
            replacement: self.replacement,
            state: self.state.duplicate(),
        }
    }
}

impl SameView for OutputTransaction {
    fn same_view(&self, other: &Self) -> (same: bool) {
        (self.run_id == other.run_id)
            && (self.input.same_view(&other.input))
            && (self.input_identity.same_view(&other.input_identity))
            && (self.staging.same_view(&other.staging))
            && (self.initial_staging_identity.same_view(&other.initial_staging_identity))
            && (self.final_path.same_view(&other.final_path))
            && (match (&self.final_preimage, &other.final_preimage) { (Some(x), Some(y)) => (*x).same_view(&(*y)), (None, None) => true, _ => false })
            && (self.replacement == other.replacement)
            && (self.state.same_view(&other.state))
    }
}

/// One durable step of an output transaction.
#[derive(Clone, Debug, PartialEq, Eq)]
pub enum OutputDelta {
    EncodeStarted { transaction: Box<OutputTransaction> },
    OutputReady { run_id: RunId, staging_identity: ArtifactIdentity },
    OutputCommitted { run_id: RunId, final_identity: ArtifactIdentity },
    RetireOriginalIntent { run_id: RunId },
    OriginalRetired { run_id: RunId },
    AbandonStagingIntent { run_id: RunId, staging_identity: ArtifactIdentity },
    Abandoned { run_id: RunId },
    Conflict { run_id: RunId, reason: String },
}

/// The mathematical value of a [`OutputDelta`].
pub enum OutputDeltaView {
    EncodeStarted { transaction: OutputTransactionView },
    OutputReady { run_id: RunId, staging_identity: ArtifactIdentityView },
    OutputCommitted { run_id: RunId, final_identity: ArtifactIdentityView },
    RetireOriginalIntent { run_id: RunId },
    OriginalRetired { run_id: RunId },
    AbandonStagingIntent { run_id: RunId, staging_identity: ArtifactIdentityView },
    Abandoned { run_id: RunId },
    Conflict { run_id: RunId, reason: Seq<char> },
}

impl View for OutputDelta {
    type V = OutputDeltaView;

    open spec fn view(&self) -> OutputDeltaView {
        match self {
            OutputDelta::EncodeStarted { transaction } => OutputDeltaView::EncodeStarted { transaction: transaction@ },
            OutputDelta::OutputReady { run_id, staging_identity } => OutputDeltaView::OutputReady { run_id: *run_id, staging_identity: staging_identity@ },
            OutputDelta::OutputCommitted { run_id, final_identity } => OutputDeltaView::OutputCommitted { run_id: *run_id, final_identity: final_identity@ },
            OutputDelta::RetireOriginalIntent { run_id } => OutputDeltaView::RetireOriginalIntent { run_id: *run_id },
            OutputDelta::OriginalRetired { run_id } => OutputDeltaView::OriginalRetired { run_id: *run_id },
            OutputDelta::AbandonStagingIntent { run_id, staging_identity } => OutputDeltaView::AbandonStagingIntent { run_id: *run_id, staging_identity: staging_identity@ },
            OutputDelta::Abandoned { run_id } => OutputDeltaView::Abandoned { run_id: *run_id },
            OutputDelta::Conflict { run_id, reason } => OutputDeltaView::Conflict { run_id: *run_id, reason: reason@ },
        }
    }
}

impl Duplicate for OutputDelta {
    fn duplicate(&self) -> (copy: Self) {
        match self {
            OutputDelta::EncodeStarted { transaction } => OutputDelta::EncodeStarted { transaction: Box::new((*(*transaction)).duplicate()) },
            OutputDelta::OutputReady { run_id, staging_identity } => OutputDelta::OutputReady { run_id: *run_id, staging_identity: (*staging_identity).duplicate() },
            OutputDelta::OutputCommitted { run_id, final_identity } => OutputDelta::OutputCommitted { run_id: *run_id, final_identity: (*final_identity).duplicate() },
            OutputDelta::RetireOriginalIntent { run_id } => OutputDelta::RetireOriginalIntent { run_id: *run_id },
            OutputDelta::OriginalRetired { run_id } => OutputDelta::OriginalRetired { run_id: *run_id },
            OutputDelta::AbandonStagingIntent { run_id, staging_identity } => OutputDelta::AbandonStagingIntent { run_id: *run_id, staging_identity: (*staging_identity).duplicate() },
            OutputDelta::Abandoned { run_id } => OutputDelta::Abandoned { run_id: *run_id },
            OutputDelta::Conflict { run_id, reason } => OutputDelta::Conflict { run_id: *run_id, reason: (*reason).clone() },
        }
    }
}

impl SameView for OutputDelta {
    fn same_view(&self, other: &Self) -> (same: bool) {
        match (self, other) {
            (OutputDelta::EncodeStarted { transaction: a_transaction }, OutputDelta::EncodeStarted { transaction: b_transaction }) => ((*(*a_transaction)).same_view(&*(*b_transaction))),
            (OutputDelta::OutputReady { run_id: a_run_id, staging_identity: a_staging_identity }, OutputDelta::OutputReady { run_id: b_run_id, staging_identity: b_staging_identity }) => (*a_run_id == *b_run_id) && ((*a_staging_identity).same_view(&(*b_staging_identity))),
            (OutputDelta::OutputCommitted { run_id: a_run_id, final_identity: a_final_identity }, OutputDelta::OutputCommitted { run_id: b_run_id, final_identity: b_final_identity }) => (*a_run_id == *b_run_id) && ((*a_final_identity).same_view(&(*b_final_identity))),
            (OutputDelta::RetireOriginalIntent { run_id: a_run_id }, OutputDelta::RetireOriginalIntent { run_id: b_run_id }) => (*a_run_id == *b_run_id),
            (OutputDelta::OriginalRetired { run_id: a_run_id }, OutputDelta::OriginalRetired { run_id: b_run_id }) => (*a_run_id == *b_run_id),
            (OutputDelta::AbandonStagingIntent { run_id: a_run_id, staging_identity: a_staging_identity }, OutputDelta::AbandonStagingIntent { run_id: b_run_id, staging_identity: b_staging_identity }) => (*a_run_id == *b_run_id) && ((*a_staging_identity).same_view(&(*b_staging_identity))),
            (OutputDelta::Abandoned { run_id: a_run_id }, OutputDelta::Abandoned { run_id: b_run_id }) => (*a_run_id == *b_run_id),
            (OutputDelta::Conflict { run_id: a_run_id, reason: a_reason }, OutputDelta::Conflict { run_id: b_run_id, reason: b_reason }) => (*a_run_id == *b_run_id) && ((*a_reason).same_view(&(*b_reason))),
            _ => false,
        }
    }
}

/// What recovery finds on disk for one transaction.
#[derive(Clone, Debug, PartialEq, Eq)]
pub struct FileSystemFacts {
    pub staging: ArtifactObservation,
    pub final_path: ArtifactObservation,
    pub original: ArtifactObservation,
}

/// The mathematical value of a [`FileSystemFacts`].
pub struct FileSystemFactsView {
    pub staging: ArtifactObservationView,
    pub final_path: ArtifactObservationView,
    pub original: ArtifactObservationView,
}

impl View for FileSystemFacts {
    type V = FileSystemFactsView;

    open spec fn view(&self) -> FileSystemFactsView {
        FileSystemFactsView {
            staging: self.staging@,
            final_path: self.final_path@,
            original: self.original@,
        }
    }
}

impl Duplicate for FileSystemFacts {
    fn duplicate(&self) -> (copy: Self) {
        FileSystemFacts {
            staging: self.staging.duplicate(),
            final_path: self.final_path.duplicate(),
            original: self.original.duplicate(),
        }
    }
}

impl SameView for FileSystemFacts {
    fn same_view(&self, other: &Self) -> (same: bool) {
        (self.staging.same_view(&other.staging))
            && (self.final_path.same_view(&other.final_path))
            && (self.original.same_view(&other.original))
    }
}

/// Why recovery cannot proceed without an operator.
#[derive(Clone, Debug, PartialEq, Eq)]
pub struct RecoveryConflict {
    pub reason: String,
}

/// The mathematical value of a [`RecoveryConflict`].
pub struct RecoveryConflictView {
    pub reason: Seq<char>,
}

impl View for RecoveryConflict {
    type V = RecoveryConflictView;

    open spec fn view(&self) -> RecoveryConflictView {
        RecoveryConflictView {
            reason: self.reason@,
        }
    }
}

impl Duplicate for RecoveryConflict {
    fn duplicate(&self) -> (copy: Self) {
        RecoveryConflict {
            reason: self.reason.clone(),
        }
    }
}

impl SameView for RecoveryConflict {
    fn same_view(&self, other: &Self) -> (same: bool) {
        (self.reason.same_view(&other.reason))
    }
}

/// The one step recovery takes next for a transaction.
#[derive(Clone, Debug, PartialEq, Eq)]
pub enum OutputRecoveryAction {
    Nothing,
    Append(OutputDelta),
    DeleteStaging { path: String, expected: ArtifactIdentity },
    Promote { staging: String, final_path: String, expected_staging: ArtifactIdentity, expected_final: Option<ArtifactIdentity> },
    DeleteOriginal { path: String, expected_original: ArtifactIdentity, expected_final: ArtifactIdentity },
    Conflict(RecoveryConflict),
}

/// The mathematical value of a [`OutputRecoveryAction`].
pub enum OutputRecoveryActionView {
    Nothing,
    Append(OutputDeltaView),
    DeleteStaging { path: Seq<char>, expected: ArtifactIdentityView },
    Promote { staging: Seq<char>, final_path: Seq<char>, expected_staging: ArtifactIdentityView, expected_final: Option<ArtifactIdentityView> },
    DeleteOriginal { path: Seq<char>, expected_original: ArtifactIdentityView, expected_final: ArtifactIdentityView },
    Conflict(RecoveryConflictView),
}

impl View for OutputRecoveryAction {
    type V = OutputRecoveryActionView;

    open spec fn view(&self) -> OutputRecoveryActionView {
        match self {
            OutputRecoveryAction::Nothing => OutputRecoveryActionView::Nothing,
            OutputRecoveryAction::Append(f0) => OutputRecoveryActionView::Append(f0@),
            OutputRecoveryAction::DeleteStaging { path, expected } => OutputRecoveryActionView::DeleteStaging { path: path@, expected: expected@ },
            OutputRecoveryAction::Promote { staging, final_path, expected_staging, expected_final } => OutputRecoveryActionView::Promote { staging: staging@, final_path: final_path@, expected_staging: expected_staging@, expected_final: match expected_final { Some(x) => Some(x@), None => None } },
            OutputRecoveryAction::DeleteOriginal { path, expected_original, expected_final } => OutputRecoveryActionView::DeleteOriginal { path: path@, expected_original: expected_original@, expected_final: expected_final@ },
            OutputRecoveryAction::Conflict(f0) => OutputRecoveryActionView::Conflict(f0@),
        }
    }
}

impl Duplicate for OutputRecoveryAction {
    fn duplicate(&self) -> (copy: Self) {
        match self {
            OutputRecoveryAction::Nothing => OutputRecoveryAction::Nothing,
            OutputRecoveryAction::Append(f0) => OutputRecoveryAction::Append((*f0).duplicate()),
            OutputRecoveryAction::DeleteStaging { path, expected } => OutputRecoveryAction::DeleteStaging { path: (*path).clone(), expected: (*expected).duplicate() },
            OutputRecoveryAction::Promote { staging, final_path, expected_staging, expected_final } => OutputRecoveryAction::Promote { staging: (*staging).clone(), final_path: (*final_path).clone(), expected_staging: (*expected_staging).duplicate(), expected_final: match &(*expected_final) { Some(x) => Some(x.duplicate()), None => None } },
            OutputRecoveryAction::DeleteOriginal { path, expected_original, expected_final } => OutputRecoveryAction::DeleteOriginal { path: (*path).clone(), expected_original: (*expected_original).duplicate(), expected_final: (*expected_final).duplicate() },
            OutputRecoveryAction::Conflict(f0) => OutputRecoveryAction::Conflict((*f0).duplicate()),
        }
    }
}

impl SameView for OutputRecoveryAction {
    fn same_view(&self, other: &Self) -> (same: bool) {
        match (self, other) {
            (OutputRecoveryAction::Nothing, OutputRecoveryAction::Nothing) => true,
            (OutputRecoveryAction::Append(a0), OutputRecoveryAction::Append(b0)) => ((*a0).same_view(&(*b0))),
            (OutputRecoveryAction::DeleteStaging { path: a_path, expected: a_expected }, OutputRecoveryAction::DeleteStaging { path: b_path, expected: b_expected }) => ((*a_path).same_view(&(*b_path))) && ((*a_expected).same_view(&(*b_expected))),
            (OutputRecoveryAction::Promote { staging: a_staging, final_path: a_final_path, expected_staging: a_expected_staging, expected_final: a_expected_final }, OutputRecoveryAction::Promote { staging: b_staging, final_path: b_final_path, expected_staging: b_expected_staging, expected_final: b_expected_final }) => ((*a_staging).same_view(&(*b_staging))) && ((*a_final_path).same_view(&(*b_final_path))) && ((*a_expected_staging).same_view(&(*b_expected_staging))) && (match (&(*a_expected_final), &(*b_expected_final)) { (Some(x), Some(y)) => (*x).same_view(&(*y)), (None, None) => true, _ => false }),
            (OutputRecoveryAction::DeleteOriginal { path: a_path, expected_original: a_expected_original, expected_final: a_expected_final }, OutputRecoveryAction::DeleteOriginal { path: b_path, expected_original: b_expected_original, expected_final: b_expected_final }) => ((*a_path).same_view(&(*b_path))) && ((*a_expected_original).same_view(&(*b_expected_original))) && ((*a_expected_final).same_view(&(*b_expected_final))),
            (OutputRecoveryAction::Conflict(a0), OutputRecoveryAction::Conflict(b0)) => ((*a0).same_view(&(*b0))),
            _ => false,
        }
    }
}

} // verus!
