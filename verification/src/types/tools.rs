//! Domain types and their mathematical views.
#![allow(unused_imports)]

use vstd::prelude::*;

use crate::model::{Duplicate, SameView, Plain, copy_plain_vec, same_plain_vec};
use crate::{HardwareDecoder, ToolRevisions, ToolRevisionsView};

verus! {

/// External media tools.
#[derive(Clone, Copy, Debug, PartialEq, Eq, Structural)]
pub enum MediaTool {
    Ffmpeg,
    Ffprobe,
}

impl View for MediaTool {
    type V = MediaTool;

    open spec fn view(&self) -> MediaTool {
        *self
    }
}

impl Duplicate for MediaTool {
    fn duplicate(&self) -> (copy: Self) {
        *self
    }
}

impl SameView for MediaTool {
    fn same_view(&self, other: &Self) -> (same: bool) {
        *self == *other
    }
}

impl Plain for MediaTool {
    proof fn lemma_view_is_self(&self) {
    }
}

/// Which discovery tier produced a tool.
#[derive(Clone, Copy, Debug, PartialEq, Eq, Structural)]
pub enum ToolSource {
    Explicit,
    Managed,
    SearchPath,
}

impl View for ToolSource {
    type V = ToolSource;

    open spec fn view(&self) -> ToolSource {
        *self
    }
}

impl Duplicate for ToolSource {
    fn duplicate(&self) -> (copy: Self) {
        *self
    }
}

impl SameView for ToolSource {
    fn same_view(&self, other: &Self) -> (same: bool) {
        *self == *other
    }
}

impl Plain for ToolSource {
    proof fn lemma_view_is_self(&self) {
    }
}

/// A located tool binary.
#[derive(Clone, Debug, PartialEq, Eq)]
pub struct LocatedTool {
    pub source: ToolSource,
    pub path: String,
}

/// The mathematical value of a [`LocatedTool`].
pub struct LocatedToolView {
    pub source: ToolSource,
    pub path: Seq<char>,
}

impl View for LocatedTool {
    type V = LocatedToolView;

    open spec fn view(&self) -> LocatedToolView {
        LocatedToolView {
            source: self.source,
            path: self.path@,
        }
    }
}

impl Duplicate for LocatedTool {
    fn duplicate(&self) -> (copy: Self) {
        LocatedTool {
            source: self.source,
            path: self.path.clone(),
        }
    }
}

impl SameView for LocatedTool {
    fn same_view(&self, other: &Self) -> (same: bool) {
        (self.source == other.source)
            && (self.path.same_view(&other.path))
    }
}

/// Both located tool binaries.
#[derive(Clone, Debug, PartialEq, Eq)]
pub struct LocatedTools {
    pub ffmpeg: LocatedTool,
    pub ffprobe: LocatedTool,
}

/// The mathematical value of a [`LocatedTools`].
pub struct LocatedToolsView {
    pub ffmpeg: LocatedToolView,
    pub ffprobe: LocatedToolView,
}

impl View for LocatedTools {
    type V = LocatedToolsView;

    open spec fn view(&self) -> LocatedToolsView {
        LocatedToolsView {
            ffmpeg: self.ffmpeg@,
            ffprobe: self.ffprobe@,
        }
    }
}

impl Duplicate for LocatedTools {
    fn duplicate(&self) -> (copy: Self) {
        LocatedTools {
            ffmpeg: self.ffmpeg.duplicate(),
            ffprobe: self.ffprobe.duplicate(),
        }
    }
}

impl SameView for LocatedTools {
    fn same_view(&self, other: &Self) -> (same: bool) {
        (self.ffmpeg.same_view(&other.ffmpeg))
            && (self.ffprobe.same_view(&other.ffprobe))
    }
}

/// A capability the tool probe verifies.
#[derive(Clone, Copy, Debug, PartialEq, Eq, Structural)]
pub enum ToolCapability {
    Version,
    Encoder,
    VmafFilter,
}

impl View for ToolCapability {
    type V = ToolCapability;

    open spec fn view(&self) -> ToolCapability {
        *self
    }
}

impl Duplicate for ToolCapability {
    fn duplicate(&self) -> (copy: Self) {
        *self
    }
}

impl SameView for ToolCapability {
    fn same_view(&self, other: &Self) -> (same: bool) {
        *self == *other
    }
}

impl Plain for ToolCapability {
    proof fn lemma_view_is_self(&self) {
    }
}

/// Why a tool probe failed.
#[derive(Clone, Debug, PartialEq, Eq)]
pub enum ProbeFailure {
    TimedOut { capability: ToolCapability },
    Missing { capability: ToolCapability },
    Rejected { capability: ToolCapability, detail: String },
}

/// The mathematical value of a [`ProbeFailure`].
pub enum ProbeFailureView {
    TimedOut { capability: ToolCapability },
    Missing { capability: ToolCapability },
    Rejected { capability: ToolCapability, detail: Seq<char> },
}

impl View for ProbeFailure {
    type V = ProbeFailureView;

    open spec fn view(&self) -> ProbeFailureView {
        match self {
            ProbeFailure::TimedOut { capability } => ProbeFailureView::TimedOut { capability: *capability },
            ProbeFailure::Missing { capability } => ProbeFailureView::Missing { capability: *capability },
            ProbeFailure::Rejected { capability, detail } => ProbeFailureView::Rejected { capability: *capability, detail: detail@ },
        }
    }
}

impl Duplicate for ProbeFailure {
    fn duplicate(&self) -> (copy: Self) {
        match self {
            ProbeFailure::TimedOut { capability } => ProbeFailure::TimedOut { capability: *capability },
            ProbeFailure::Missing { capability } => ProbeFailure::Missing { capability: *capability },
            ProbeFailure::Rejected { capability, detail } => ProbeFailure::Rejected { capability: *capability, detail: (*detail).clone() },
        }
    }
}

impl SameView for ProbeFailure {
    fn same_view(&self, other: &Self) -> (same: bool) {
        match (self, other) {
            (ProbeFailure::TimedOut { capability: a_capability }, ProbeFailure::TimedOut { capability: b_capability }) => (*a_capability == *b_capability),
            (ProbeFailure::Missing { capability: a_capability }, ProbeFailure::Missing { capability: b_capability }) => (*a_capability == *b_capability),
            (ProbeFailure::Rejected { capability: a_capability, detail: a_detail }, ProbeFailure::Rejected { capability: b_capability, detail: b_detail }) => (*a_capability == *b_capability) && ((*a_detail).same_view(&(*b_detail))),
            _ => false,
        }
    }
}

/// Where verification of located tools stands.
#[derive(Clone, Debug, PartialEq, Eq)]
pub enum ToolVerification {
    Pending,
    Failed(ProbeFailure),
    Verified { revisions: ToolRevisions, hardware_decoders: Vec<HardwareDecoder> },
}

/// The mathematical value of a [`ToolVerification`].
pub enum ToolVerificationView {
    Pending,
    Failed(ProbeFailureView),
    Verified { revisions: ToolRevisionsView, hardware_decoders: Seq<HardwareDecoder> },
}

impl View for ToolVerification {
    type V = ToolVerificationView;

    open spec fn view(&self) -> ToolVerificationView {
        match self {
            ToolVerification::Pending => ToolVerificationView::Pending,
            ToolVerification::Failed(f0) => ToolVerificationView::Failed(f0@),
            ToolVerification::Verified { revisions, hardware_decoders } => ToolVerificationView::Verified { revisions: revisions@, hardware_decoders: hardware_decoders@ },
        }
    }
}

impl Duplicate for ToolVerification {
    fn duplicate(&self) -> (copy: Self) {
        match self {
            ToolVerification::Pending => ToolVerification::Pending,
            ToolVerification::Failed(f0) => ToolVerification::Failed((*f0).duplicate()),
            ToolVerification::Verified { revisions, hardware_decoders } => ToolVerification::Verified { revisions: (*revisions).duplicate(), hardware_decoders: copy_plain_vec(&(*hardware_decoders)) },
        }
    }
}

impl SameView for ToolVerification {
    fn same_view(&self, other: &Self) -> (same: bool) {
        match (self, other) {
            (ToolVerification::Pending, ToolVerification::Pending) => true,
            (ToolVerification::Failed(a0), ToolVerification::Failed(b0)) => ((*a0).same_view(&(*b0))),
            (ToolVerification::Verified { revisions: a_revisions, hardware_decoders: a_hardware_decoders }, ToolVerification::Verified { revisions: b_revisions, hardware_decoders: b_hardware_decoders }) => ((*a_revisions).same_view(&(*b_revisions))) && (same_plain_vec(&(*a_hardware_decoders), &(*b_hardware_decoders))),
            _ => false,
        }
    }
}

/// Whether external media tools are usable.
#[derive(Clone, Debug, PartialEq, Eq)]
pub enum ToolAvailability {
    Missing { missing: Vec<MediaTool>, detail: String },
    Located { tools: LocatedTools, verification: ToolVerification },
}

/// The mathematical value of a [`ToolAvailability`].
pub enum ToolAvailabilityView {
    Missing { missing: Seq<MediaTool>, detail: Seq<char> },
    Located { tools: LocatedToolsView, verification: ToolVerificationView },
}

impl View for ToolAvailability {
    type V = ToolAvailabilityView;

    open spec fn view(&self) -> ToolAvailabilityView {
        match self {
            ToolAvailability::Missing { missing, detail } => ToolAvailabilityView::Missing { missing: missing@, detail: detail@ },
            ToolAvailability::Located { tools, verification } => ToolAvailabilityView::Located { tools: tools@, verification: verification@ },
        }
    }
}

impl Duplicate for ToolAvailability {
    fn duplicate(&self) -> (copy: Self) {
        match self {
            ToolAvailability::Missing { missing, detail } => ToolAvailability::Missing { missing: copy_plain_vec(&(*missing)), detail: (*detail).clone() },
            ToolAvailability::Located { tools, verification } => ToolAvailability::Located { tools: (*tools).duplicate(), verification: (*verification).duplicate() },
        }
    }
}

impl SameView for ToolAvailability {
    fn same_view(&self, other: &Self) -> (same: bool) {
        match (self, other) {
            (ToolAvailability::Missing { missing: a_missing, detail: a_detail }, ToolAvailability::Missing { missing: b_missing, detail: b_detail }) => (same_plain_vec(&(*a_missing), &(*b_missing))) && ((*a_detail).same_view(&(*b_detail))),
            (ToolAvailability::Located { tools: a_tools, verification: a_verification }, ToolAvailability::Located { tools: b_tools, verification: b_verification }) => ((*a_tools).same_view(&(*b_tools))) && ((*a_verification).same_view(&(*b_verification))),
            _ => false,
        }
    }
}

/// What the vendor subsystem is doing.
#[derive(Clone, Debug, PartialEq, Eq)]
pub enum VendorActivity {
    Idle,
    Checking,
    Downloading { received: u64, total: Option<u64> },
    Installing,
    Failed { detail: String },
}

/// The mathematical value of a [`VendorActivity`].
pub enum VendorActivityView {
    Idle,
    Checking,
    Downloading { received: u64, total: Option<u64> },
    Installing,
    Failed { detail: Seq<char> },
}

impl View for VendorActivity {
    type V = VendorActivityView;

    open spec fn view(&self) -> VendorActivityView {
        match self {
            VendorActivity::Idle => VendorActivityView::Idle,
            VendorActivity::Checking => VendorActivityView::Checking,
            VendorActivity::Downloading { received, total } => VendorActivityView::Downloading { received: *received, total: *total },
            VendorActivity::Installing => VendorActivityView::Installing,
            VendorActivity::Failed { detail } => VendorActivityView::Failed { detail: detail@ },
        }
    }
}

impl Duplicate for VendorActivity {
    fn duplicate(&self) -> (copy: Self) {
        match self {
            VendorActivity::Idle => VendorActivity::Idle,
            VendorActivity::Checking => VendorActivity::Checking,
            VendorActivity::Downloading { received, total } => VendorActivity::Downloading { received: *received, total: *total },
            VendorActivity::Installing => VendorActivity::Installing,
            VendorActivity::Failed { detail } => VendorActivity::Failed { detail: (*detail).clone() },
        }
    }
}

impl SameView for VendorActivity {
    fn same_view(&self, other: &Self) -> (same: bool) {
        match (self, other) {
            (VendorActivity::Idle, VendorActivity::Idle) => true,
            (VendorActivity::Checking, VendorActivity::Checking) => true,
            (VendorActivity::Downloading { received: a_received, total: a_total }, VendorActivity::Downloading { received: b_received, total: b_total }) => (*a_received == *b_received) && (*a_total == *b_total),
            (VendorActivity::Installing, VendorActivity::Installing) => true,
            (VendorActivity::Failed { detail: a_detail }, VendorActivity::Failed { detail: b_detail }) => ((*a_detail).same_view(&(*b_detail))),
            _ => false,
        }
    }
}

/// The full ephemeral tool picture.
#[derive(Clone, Debug, PartialEq, Eq)]
pub struct ToolsState {
    pub availability: ToolAvailability,
    pub activity: VendorActivity,
    pub update_available: bool,
}

/// The mathematical value of a [`ToolsState`].
pub struct ToolsStateView {
    pub availability: ToolAvailabilityView,
    pub activity: VendorActivityView,
    pub update_available: bool,
}

impl View for ToolsState {
    type V = ToolsStateView;

    open spec fn view(&self) -> ToolsStateView {
        ToolsStateView {
            availability: self.availability@,
            activity: self.activity@,
            update_available: self.update_available,
        }
    }
}

impl Duplicate for ToolsState {
    fn duplicate(&self) -> (copy: Self) {
        ToolsState {
            availability: self.availability.duplicate(),
            activity: self.activity.duplicate(),
            update_available: self.update_available,
        }
    }
}

impl SameView for ToolsState {
    fn same_view(&self, other: &Self) -> (same: bool) {
        (self.availability.same_view(&other.availability))
            && (self.activity.same_view(&other.activity))
            && (self.update_available == other.update_available)
    }
}

/// Why no claim can be composed from the current tool picture.
#[derive(Clone, Copy, Debug, PartialEq, Eq, Structural)]
pub enum ExecutionUnavailable {
    ToolsMissing,
    ToolsPending,
    ToolsFailed,
}

impl View for ExecutionUnavailable {
    type V = ExecutionUnavailable;

    open spec fn view(&self) -> ExecutionUnavailable {
        *self
    }
}

impl Duplicate for ExecutionUnavailable {
    fn duplicate(&self) -> (copy: Self) {
        *self
    }
}

impl SameView for ExecutionUnavailable {
    fn same_view(&self, other: &Self) -> (same: bool) {
        *self == *other
    }
}

impl Plain for ExecutionUnavailable {
    proof fn lemma_view_is_self(&self) {
    }
}

} // verus!
