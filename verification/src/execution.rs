//! Claim-time execution composition: the only composition of base
//! execution settings, probed tool facts, and Settings into the execution a
//! claim freezes into its job.

use vstd::prelude::*;

use crate::model::Duplicate;
use crate::{
    DecodeMode, DecodePreference, ExecutionSettings, ExecutionSettingsView, ExecutionUnavailable,
    HardwareDecoder, MediaTool, OverwriteDecision, Settings, SettingsView, ToolAvailability,
    ToolAvailabilityView, ToolVerificationView, VideoCodec, VideoCodecView,
};

verus! {

/// Fail closed until discovery reports: both tools missing.
pub open spec fn undiscovered_tools() -> ToolAvailabilityView {
    ToolAvailabilityView::Missing {
        missing: seq![MediaTool::Ffmpeg, MediaTool::Ffprobe],
        detail: "media tool discovery has not completed"@,
    }
}

impl Default for ToolAvailability {
    fn default() -> (availability: Self)
        ensures
            availability@ == undiscovered_tools(),
    {
        let mut missing: Vec<MediaTool> = Vec::new();
        missing.push(MediaTool::Ffmpeg);
        missing.push(MediaTool::Ffprobe);
        assert(missing@ =~= seq![MediaTool::Ffmpeg, MediaTool::Ffprobe]);
        ToolAvailability::Missing { missing, detail: String::from_str("media tool discovery has not completed") }
    }
}

/// Codec-appropriate hardware decoders in preference order: CUVID before
/// QSV. Codecs without a hardware path have none.
pub open spec fn candidates(codec: VideoCodecView) -> Seq<HardwareDecoder> {
    match codec {
        VideoCodecView::H264 => seq![HardwareDecoder::H264Cuvid, HardwareDecoder::H264Qsv],
        VideoCodecView::Hevc => seq![HardwareDecoder::HevcCuvid, HardwareDecoder::HevcQsv],
        VideoCodecView::Vp9 => seq![HardwareDecoder::Vp9Cuvid, HardwareDecoder::Vp9Qsv],
        VideoCodecView::Av1 => seq![HardwareDecoder::Av1Cuvid, HardwareDecoder::Av1Qsv],
        VideoCodecView::Other(_) => Seq::empty(),
    }
}

/// Codec-appropriate hardware decoders in preference order.
pub fn decoder_candidates(codec: &VideoCodec) -> (decoders: Vec<HardwareDecoder>)
    ensures
        decoders@ == candidates(codec@),
{
    let mut decoders: Vec<HardwareDecoder> = Vec::new();
    match codec {
        VideoCodec::H264 => {
            decoders.push(HardwareDecoder::H264Cuvid);
            decoders.push(HardwareDecoder::H264Qsv);
        }
        VideoCodec::Hevc => {
            decoders.push(HardwareDecoder::HevcCuvid);
            decoders.push(HardwareDecoder::HevcQsv);
        }
        VideoCodec::Vp9 => {
            decoders.push(HardwareDecoder::Vp9Cuvid);
            decoders.push(HardwareDecoder::Vp9Qsv);
        }
        VideoCodec::Av1 => {
            decoders.push(HardwareDecoder::Av1Cuvid);
            decoders.push(HardwareDecoder::Av1Qsv);
        }
        VideoCodec::Other(_) => {}
    }
    assert(decoders@ =~= candidates(codec@));
    decoders
}

/// The user-facing summary of why no claim can be composed.
pub open spec fn unavailable_summary(reason: ExecutionUnavailable) -> &'static str {
    match reason {
        ExecutionUnavailable::ToolsMissing => "media tools are not located",
        ExecutionUnavailable::ToolsPending => "media tools have not been verified",
        ExecutionUnavailable::ToolsFailed => "media tools failed verification",
    }
}

impl ExecutionUnavailable {
    /// The user-facing summary; path-free by construction.
    pub fn summary(self) -> (summary: &'static str)
        ensures
            summary == unavailable_summary(self),
    {
        match self {
            ExecutionUnavailable::ToolsMissing => "media tools are not located",
            ExecutionUnavailable::ToolsPending => "media tools have not been verified",
            ExecutionUnavailable::ToolsFailed => "media tools failed verification",
        }
    }
}

/// The first candidate decoder for `codec` that the probe found.
pub open spec fn first_available(candidates: Seq<HardwareDecoder>, available: Seq<HardwareDecoder>) -> Option<HardwareDecoder>
    decreases candidates.len(),
{
    if candidates.len() == 0 {
        None
    } else if available.contains(candidates[0]) {
        Some(candidates[0])
    } else {
        first_available(candidates.drop_first(), available)
    }
}

/// The decoder a hardware-preferring claim uses: the first codec candidate
/// the probe found; none without observed media facts.
pub open spec fn hardware_decoder_for(codec: Option<VideoCodecView>, available: Seq<HardwareDecoder>) -> Option<HardwareDecoder> {
    match codec {
        None => None,
        Some(codec) => first_available(candidates(codec), available),
    }
}

/// How a per-item overwrite decision resolves against Settings.
pub open spec fn resolved_overwrite(decision: OverwriteDecision, settings: SettingsView) -> bool {
    match decision {
        OverwriteDecision::FollowSettings => settings.output.overwrite_existing,
        OverwriteDecision::Allow => true,
        OverwriteDecision::Deny => false,
    }
}

/// The execution a claim runs with, or why none can be composed.
pub open spec fn composed_execution(
    base: ExecutionSettingsView,
    tools: ToolAvailabilityView,
    settings: SettingsView,
    overwrite: OverwriteDecision,
    codec: Option<VideoCodecView>,
) -> Result<ExecutionSettingsView, ExecutionUnavailable> {
    match tools {
        ToolAvailabilityView::Missing { .. } => Err(ExecutionUnavailable::ToolsMissing),
        ToolAvailabilityView::Located { verification, .. } => match verification {
            ToolVerificationView::Pending => Err(ExecutionUnavailable::ToolsPending),
            ToolVerificationView::Failed(_) => Err(ExecutionUnavailable::ToolsFailed),
            ToolVerificationView::Verified { revisions, hardware_decoders } => {
                let profile = crate::AnalysisProfileView {
                    ab_av1_revision: revisions.ab_av1,
                    ffmpeg_revision: revisions.ffmpeg,
                    encoder_revision: revisions.encoder,
                    decode_mode: if settings.hardware_decode {
                        match hardware_decoder_for(codec, hardware_decoders) {
                            Some(decoder) => DecodeMode::Hardware(decoder),
                            None => DecodeMode::Software,
                        }
                    } else {
                        DecodeMode::Software
                    },
                    ..base.profile
                };
                Ok(ExecutionSettingsView {
                    overwrite_existing: resolved_overwrite(overwrite, settings),
                    decode_preference: if settings.hardware_decode {
                        DecodePreference::HardwarePreferred
                    } else {
                        DecodePreference::SoftwareOnly
                    },
                    profile,
                    ..base
                })
            },
        },
    }
}

fn contains_decoder(available: &Vec<HardwareDecoder>, decoder: HardwareDecoder) -> (found: bool)
    ensures
        found == available@.contains(decoder),
{
    let mut index: usize = 0;
    while index < available.len()
        invariant
            index <= available.len(),
            forall|k: int| 0 <= k < index ==> available@[k] != decoder,
        decreases available.len() - index,
    {
        if available[index] == decoder {
            assert(available@[index as int] == decoder);
            return true;
        }
        index += 1;
    }
    false
}

#[verifier::loop_isolation(false)]
fn select_hardware_decoder(codec: Option<&VideoCodec>, available: &Vec<HardwareDecoder>) -> (decoder: Option<HardwareDecoder>)
    ensures
        decoder == hardware_decoder_for(
            match codec { Some(c) => Some(c@), None => None },
            available@,
        ),
{
    let codec = match codec {
        None => return None,
        Some(codec) => codec,
    };
    let candidates = decoder_candidates(codec);
    let mut index: usize = 0;
    assert(candidates@.skip(0) =~= candidates@);
    while index < candidates.len()
        invariant
            index <= candidates.len(),
            candidates@ == crate::execution::candidates(codec@),
            first_available(candidates@, available@) == first_available(candidates@.skip(index as int), available@),
        decreases candidates.len() - index,
    {
        assert(candidates@.skip(index as int)[0] == candidates@[index as int]);
        if contains_decoder(available, candidates[index]) {
            assert(candidates@.skip(index as int).len() > 0);
            return Some(candidates[index]);
        }
        assert(candidates@.skip(index as int).drop_first() =~= candidates@.skip(index + 1));
        index += 1;
    }
    assert(candidates@.skip(index as int).len() == 0);
    None
}

/// Compose the execution a claim runs with: verified revisions become the
/// profile's provenance, the item's overwrite decision resolves against
/// Settings, and the decode mode is the first codec-appropriate decoder the
/// probe found when hardware decode is enabled.
pub fn compose_execution(
    base: &ExecutionSettings,
    tools: &ToolAvailability,
    settings: &Settings,
    overwrite: OverwriteDecision,
    codec: Option<&VideoCodec>,
) -> (result: Result<ExecutionSettings, ExecutionUnavailable>)
    ensures
        crate::analysis::result_view(result) == composed_execution(
            base@,
            tools@,
            settings@,
            overwrite,
            match codec { Some(c) => Some(c@), None => None },
        ),
{
    let (revisions, hardware_decoders) = match tools {
        ToolAvailability::Missing { .. } => return Err(ExecutionUnavailable::ToolsMissing),
        ToolAvailability::Located { verification, .. } => match verification {
            crate::ToolVerification::Pending => return Err(ExecutionUnavailable::ToolsPending),
            crate::ToolVerification::Failed(_) => return Err(ExecutionUnavailable::ToolsFailed),
            crate::ToolVerification::Verified { revisions, hardware_decoders } => (revisions, hardware_decoders),
        },
    };
    let mut execution = base.duplicate();
    execution.profile.ab_av1_revision = revisions.ab_av1.clone();
    execution.profile.ffmpeg_revision = revisions.ffmpeg.clone();
    execution.profile.encoder_revision = revisions.encoder.clone();
    execution.overwrite_existing = match overwrite {
        OverwriteDecision::FollowSettings => settings.output.overwrite_existing,
        OverwriteDecision::Allow => true,
        OverwriteDecision::Deny => false,
    };
    if settings.hardware_decode {
        execution.decode_preference = DecodePreference::HardwarePreferred;
        execution.profile.decode_mode = match select_hardware_decoder(codec, hardware_decoders) {
            Some(decoder) => DecodeMode::Hardware(decoder),
            None => DecodeMode::Software,
        };
    } else {
        execution.decode_preference = DecodePreference::SoftwareOnly;
        execution.profile.decode_mode = DecodeMode::Software;
    }
    Ok(execution)
}

} // verus!
