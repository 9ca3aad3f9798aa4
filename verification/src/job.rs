//! Job construction and validation: production defaults, the consistency
//! rules of execution settings and search results, and the job action's
//! accessors.

use vstd::prelude::*;

use crate::constants::{
    DEFAULT_ENCODING_PRESET, DEFAULT_MAX_ENCODED_PERCENT_BASIS_POINTS, DEFAULT_SAMPLE_DURATION_MS,
    DEFAULT_VMAF_TARGET, MAX_ENCODING_PRESET, MAX_PERCENT_BASIS_POINTS, MAX_VMAF_SCORE,
    MIN_VMAF_FALLBACK_TARGET, VMAF_FALLBACK_STEP, VMAF_SCORE_FIXED_SCALE,
};
use crate::model::{Duplicate, SameView};
use crate::text::is_empty_text;
use crate::{
    AnalysisAttempt, AnalysisProfile, AnalysisProfileView, AnalysisResult, AnalysisResultView,
    DecodeMode, DecodePreference, ExecutionSettings, ExecutionSettingsView, JobAction,
    JobActionView, SearchMeasurement, VmafTarget,
};

verus! {

impl AnalysisProfile {
    /// The production search profile: default preset, size cap, and sample
    /// length, software decode, and no tool revisions yet. Claims fill the
    /// revisions from verified tools.
    pub fn production() -> (profile: Self)
        ensures
            profile@ == production_profile(),
    {
        AnalysisProfile {
            preset: DEFAULT_ENCODING_PRESET,
            max_encoded_percent_basis_points: DEFAULT_MAX_ENCODED_PERCENT_BASIS_POINTS,
            samples: None,
            sample_duration_ms: DEFAULT_SAMPLE_DURATION_MS,
            thorough: false,
            decode_mode: DecodeMode::Software,
            ab_av1_revision: String::new(),
            ffmpeg_revision: String::new(),
            encoder_revision: String::new(),
        }
    }
}

/// The production search profile.
pub open spec fn production_profile() -> AnalysisProfileView {
    AnalysisProfileView {
        preset: DEFAULT_ENCODING_PRESET,
        max_encoded_percent_basis_points: DEFAULT_MAX_ENCODED_PERCENT_BASIS_POINTS,
        samples: None,
        sample_duration_ms: DEFAULT_SAMPLE_DURATION_MS,
        thorough: false,
        decode_mode: DecodeMode::Software,
        ab_av1_revision: Seq::empty(),
        ffmpeg_revision: Seq::empty(),
        encoder_revision: Seq::empty(),
    }
}

impl ExecutionSettings {
    /// Production execution: the default target and fallback ladder,
    /// hardware decode preferred.
    pub fn production(profile: AnalysisProfile, overwrite_existing: bool) -> (execution: Self)
        ensures
            execution@ == (ExecutionSettingsView {
                requested_target: VmafTarget(DEFAULT_VMAF_TARGET),
                fallback_floor: VmafTarget(MIN_VMAF_FALLBACK_TARGET),
                fallback_step: VMAF_FALLBACK_STEP,
                overwrite_existing,
                decode_preference: DecodePreference::HardwarePreferred,
                profile: profile@,
            }),
    {
        ExecutionSettings {
            requested_target: VmafTarget(DEFAULT_VMAF_TARGET),
            fallback_floor: VmafTarget(MIN_VMAF_FALLBACK_TARGET),
            fallback_step: VMAF_FALLBACK_STEP,
            overwrite_existing,
            decode_preference: DecodePreference::HardwarePreferred,
            profile,
        }
    }

    /// The rules every execution obeys regardless of tool revisions.
    pub fn validate_base(&self) -> (result: Result<(), &'static str>)
        ensures
            result == base_validation(self@),
    {
        if self.requested_target.0 as u16 > MAX_VMAF_SCORE {
            return Err("requested VMAF target exceeds the maximum score");
        }
        if self.fallback_floor.0 > self.requested_target.0 {
            return Err("fallback floor exceeds the requested target");
        }
        if self.fallback_step == 0 {
            return Err("fallback step must be positive");
        }
        if self.profile.preset > MAX_ENCODING_PRESET {
            return Err("encoding preset is out of range");
        }
        if self.profile.max_encoded_percent_basis_points == 0
            || self.profile.max_encoded_percent_basis_points > MAX_PERCENT_BASIS_POINTS
        {
            return Err("maximum encoded percent is out of range");
        }
        if self.profile.sample_duration_ms == 0 {
            return Err("sample duration must be positive");
        }
        if let DecodeMode::Hardware(_) = self.profile.decode_mode {
            if let DecodePreference::SoftwareOnly = self.decode_preference {
                return Err("software-only execution cannot decode in hardware");
            }
        }
        Ok(())
    }

    /// The base rules plus the tool provenance a claim must carry.
    pub fn validate(&self) -> (result: Result<(), &'static str>)
        ensures
            result == execution_validation(self@),
    {
        self.validate_base()?;
        if is_empty_text(&self.profile.ab_av1_revision) || is_empty_text(&self.profile.ffmpeg_revision)
            || is_empty_text(&self.profile.encoder_revision)
        {
            return Err("tool revisions must not be empty");
        }
        Ok(())
    }
}

/// The rules every execution obeys regardless of tool revisions.
pub open spec fn base_validation(execution: ExecutionSettingsView) -> Result<(), &'static str> {
    if execution.requested_target.0 > MAX_VMAF_SCORE {
        Err("requested VMAF target exceeds the maximum score")
    } else if execution.fallback_floor.0 > execution.requested_target.0 {
        Err("fallback floor exceeds the requested target")
    } else if execution.fallback_step == 0 {
        Err("fallback step must be positive")
    } else if execution.profile.preset > MAX_ENCODING_PRESET {
        Err("encoding preset is out of range")
    } else if execution.profile.max_encoded_percent_basis_points == 0
        || execution.profile.max_encoded_percent_basis_points > MAX_PERCENT_BASIS_POINTS {
        Err("maximum encoded percent is out of range")
    } else if execution.profile.sample_duration_ms == 0 {
        Err("sample duration must be positive")
    } else if execution.profile.decode_mode is Hardware && execution.decode_preference
        == DecodePreference::SoftwareOnly {
        Err("software-only execution cannot decode in hardware")
    } else {
        Ok(())
    }
}

/// The base rules plus non-empty tool revisions.
pub open spec fn execution_validation(execution: ExecutionSettingsView) -> Result<(), &'static str> {
    if base_validation(execution) is Err {
        base_validation(execution)
    } else if execution.profile.ab_av1_revision.len() == 0 || execution.profile.ffmpeg_revision.len() == 0
        || execution.profile.encoder_revision.len() == 0 {
        Err("tool revisions must not be empty")
    } else {
        Ok(())
    }
}

impl SearchMeasurement {
    /// A score above the VMAF scale cannot come from a real search.
    pub fn validate(&self) -> (result: Result<(), &'static str>)
        ensures
            result == measurement_validation(*self),
    {
        if self.score.0 > MAX_VMAF_SCORE * VMAF_SCORE_FIXED_SCALE {
            return Err("VMAF score exceeds the maximum");
        }
        Ok(())
    }
}

/// A score above the VMAF scale cannot come from a real search.
pub open spec fn measurement_validation(measurement: SearchMeasurement) -> Result<(), &'static str> {
    if measurement.score.0 > MAX_VMAF_SCORE * VMAF_SCORE_FIXED_SCALE {
        Err("VMAF score exceeds the maximum")
    } else {
        Ok(())
    }
}

/// A failed attempt sits strictly above the successful target and no
/// higher than the requested one, and carries a valid measurement if any.
pub open spec fn attempt_consistent(result: AnalysisResultView, attempt: AnalysisAttempt) -> bool {
    &&& result.successful_target.0 < attempt.target.0 <= result.requested_target.0
    &&& match attempt.last_measurement {
        Some(measurement) => measurement_validation(measurement) is Ok,
        None => true,
    }
}

/// Consistency the type shape cannot express.
pub open spec fn result_consistency(result: AnalysisResultView) -> Result<(), &'static str> {
    if result.fallback_floor.0 > result.requested_target.0 {
        Err("fallback floor exceeds the requested target")
    } else if result.successful_target.0 < result.fallback_floor.0 || result.successful_target.0
        > result.requested_target.0 {
        Err("successful VMAF target is outside the requested fallback range")
    } else if result.fallback_step == 0 {
        Err("fallback step must be positive")
    } else if !(forall|k: int| 0 <= k < result.failed_attempts.len() ==> attempt_consistent(result, #[trigger] result.failed_attempts[k])) {
        Err("failed attempts are inconsistent with the search result")
    } else {
        measurement_validation(result.measurement)
    }
}

/// Whether a result asked for the same target ladder as an execution.
pub open spec fn same_fallback_request(result: AnalysisResultView, execution: ExecutionSettingsView) -> bool {
    &&& result.requested_target == execution.requested_target
    &&& result.fallback_floor == execution.fallback_floor
    &&& result.fallback_step == execution.fallback_step
}

/// The profiles a run may durably record: the prepared profile, plus its
/// software-decode variant when the prepared profile decodes in hardware.
pub open spec fn permitted(execution: ExecutionSettingsView) -> Seq<AnalysisProfileView> {
    if execution.profile.decode_mode is Hardware {
        seq![execution.profile, AnalysisProfileView { decode_mode: DecodeMode::Software, ..execution.profile }]
    } else {
        seq![execution.profile]
    }
}

/// A freshly recorded search must be consistent, answer the execution's
/// target ladder, and run under a permitted profile.
pub open spec fn recording_validation(result: AnalysisResultView, execution: ExecutionSettingsView) -> Result<(), &'static str> {
    if result_consistency(result) is Err {
        result_consistency(result)
    } else if !same_fallback_request(result, execution) {
        Err("analysis fallback request does not match the execution")
    } else if !permitted(execution).contains(result.profile) {
        Err("analysis profile is not permitted for the execution")
    } else {
        Ok(())
    }
}

/// A stored search may be reused when it is consistent, ran under the
/// execution's profile, and either reached the requested target or asked
/// for the same ladder.
pub open spec fn reuse_validation(result: AnalysisResultView, execution: ExecutionSettingsView) -> Result<(), &'static str> {
    if result_consistency(result) is Err {
        result_consistency(result)
    } else if result.profile != execution.profile {
        Err("analysis profile does not match the execution")
    } else if result.successful_target.0 < execution.requested_target.0 && !same_fallback_request(result, execution) {
        Err("analysis target does not satisfy the execution")
    } else {
        Ok(())
    }
}

fn attempt_is_consistent(result: &AnalysisResult, attempt: &AnalysisAttempt) -> (consistent: bool)
    ensures
        consistent == attempt_consistent(result@, *attempt),
{
    if attempt.target.0 <= result.successful_target.0 || attempt.target.0 > result.requested_target.0 {
        return false;
    }
    match &attempt.last_measurement {
        Some(measurement) => measurement.validate().is_ok(),
        None => true,
    }
}

impl AnalysisResult {
    /// Consistency the type shape cannot express.
    #[verifier::loop_isolation(false)]
    pub fn validate_consistent(&self) -> (result: Result<(), &'static str>)
        ensures
            result == result_consistency(self@),
    {
        if self.fallback_floor.0 > self.requested_target.0 {
            return Err("fallback floor exceeds the requested target");
        }
        if self.successful_target.0 < self.fallback_floor.0 || self.successful_target.0 > self.requested_target.0 {
            return Err("successful VMAF target is outside the requested fallback range");
        }
        if self.fallback_step == 0 {
            return Err("fallback step must be positive");
        }
        let mut index: usize = 0;
        while index < self.failed_attempts.len()
            invariant
                index <= self.failed_attempts.len(),
                forall|k: int| 0 <= k < index ==> attempt_consistent(self@, #[trigger] self@.failed_attempts[k]),
            decreases self.failed_attempts.len() - index,
        {
            if !attempt_is_consistent(self, &self.failed_attempts[index]) {
                assert(!attempt_consistent(self@, self@.failed_attempts[index as int]));
                assert(!(forall|k: int| 0 <= k < self@.failed_attempts.len() ==> attempt_consistent(self@, #[trigger] self@.failed_attempts[k])));
                return Err("failed attempts are inconsistent with the search result");
            }
            index += 1;
        }
        self.measurement.validate()
    }

    /// A freshly recorded search must be consistent, answer the execution's
    /// target ladder, and run under a permitted profile.
    #[verifier::loop_isolation(false)]
    pub fn validate_for(&self, execution: &ExecutionSettings) -> (result: Result<(), &'static str>)
        ensures
            result == recording_validation(self@, execution@),
    {
        self.validate_consistent()?;
        if self.requested_target.0 != execution.requested_target.0 || self.fallback_floor.0
            != execution.fallback_floor.0 || self.fallback_step != execution.fallback_step
        {
            return Err("analysis fallback request does not match the execution");
        }
        let profiles = permitted_profiles(execution);
        let mut index: usize = 0;
        while index < profiles.len()
            invariant
                index <= profiles.len(),
                profiles@.map_values(|p: AnalysisProfile| p@) == permitted(execution@),
                forall|k: int| 0 <= k < index ==> profiles@[k]@ != self@.profile,
            decreases profiles.len() - index,
        {
            if profiles[index].same_view(&self.profile) {
                assert(permitted(execution@)[index as int] == self@.profile);
                assert(permitted(execution@).contains(self@.profile));
                return Ok(());
            }
            index += 1;
        }
        assert(!permitted(execution@).contains(self@.profile)) by {
            if permitted(execution@).contains(self@.profile) {
                let k = choose|k: int| 0 <= k < permitted(execution@).len() && permitted(execution@)[k] == self@.profile;
                assert(profiles@[k]@ == self@.profile);
            }
        }
        Err("analysis profile is not permitted for the execution")
    }

    /// A stored search may be reused when it is consistent, ran under the
    /// execution's profile, and either reached the requested target or asked
    /// for the same ladder.
    pub fn validate_reusable_for(&self, execution: &ExecutionSettings) -> (result: Result<(), &'static str>)
        ensures
            result == reuse_validation(self@, execution@),
    {
        self.validate_consistent()?;
        if !self.profile.same_view(&execution.profile) {
            return Err("analysis profile does not match the execution");
        }
        let same_request = self.requested_target.0 == execution.requested_target.0
            && self.fallback_floor.0 == execution.fallback_floor.0
            && self.fallback_step == execution.fallback_step;
        if self.successful_target.0 < execution.requested_target.0 && !same_request {
            return Err("analysis target does not satisfy the execution");
        }
        Ok(())
    }
}

/// The analysis profiles a run may durably record: the prepared profile,
/// plus its software-decode variant when it decodes in hardware, so a
/// search retried in software may still be recorded.
pub fn permitted_profiles(execution: &ExecutionSettings) -> (profiles: Vec<AnalysisProfile>)
    ensures
        profiles@.map_values(|p: AnalysisProfile| p@) == permitted(execution@),
{
    let mut profiles: Vec<AnalysisProfile> = Vec::new();
    profiles.push(execution.profile.duplicate());
    if let DecodeMode::Hardware(_) = execution.profile.decode_mode {
        let mut software = execution.profile.duplicate();
        software.decode_mode = DecodeMode::Software;
        profiles.push(software);
    }
    assert(profiles@.map_values(|p: AnalysisProfile| p@) =~= permitted(execution@));
    profiles
}

impl JobActionView {
    /// The search a prepared job reuses, if any.
    pub open spec fn selected(self) -> Option<AnalysisResultView> {
        match self {
            JobActionView::Analyze { selected_analysis } => selected_analysis,
            JobActionView::Encode { selected_analysis } => selected_analysis,
            JobActionView::Skip { .. } | JobActionView::Remux => None,
        }
    }

    /// Whether the job writes an output file.
    pub open spec fn writes_output(self) -> bool {
        self is Encode || self is Remux
    }
}

impl JobAction {
    /// The search a prepared job reuses, if any.
    pub fn selected_analysis(&self) -> (selected: Option<&AnalysisResult>)
        ensures
            match selected {
                Some(result) => self@.selected() == Some(result@),
                None => self@.selected() is None,
            },
    {
        match self {
            JobAction::Analyze { selected_analysis } | JobAction::Encode { selected_analysis } => match selected_analysis {
                Some(result) => Some(&**result),
                None => None,
            },
            JobAction::Skip { .. } | JobAction::Remux => None,
        }
    }

    /// Whether the job writes an output file.
    pub fn produces_output(&self) -> (produces: bool)
        ensures
            produces == self@.writes_output(),
    {
        match self {
            JobAction::Encode { .. } | JobAction::Remux => true,
            JobAction::Skip { .. } | JobAction::Analyze { .. } => false,
        }
    }
}

impl Default for ExecutionSettings {
    /// Production execution with the production profile, not overwriting.
    fn default() -> (execution: Self)
        ensures
            execution@ == (ExecutionSettingsView {
                requested_target: VmafTarget(DEFAULT_VMAF_TARGET),
                fallback_floor: VmafTarget(MIN_VMAF_FALLBACK_TARGET),
                fallback_step: VMAF_FALLBACK_STEP,
                overwrite_existing: false,
                decode_preference: DecodePreference::HardwarePreferred,
                profile: production_profile(),
            }),
    {
        ExecutionSettings::production(AnalysisProfile::production(), false)
    }
}

} // verus!
