use crfty_core::execution::{compose_execution, decoder_candidates};
use crfty_core::{
    AnalysisProfile, DecodeMode, DecodePreference, ExecutionSettings, ExecutionUnavailable,
    HardwareDecoder, LocatedTool, LocatedTools, OverwriteDecision, ProbeFailure, Settings,
    ToolAvailability, ToolCapability, ToolRevisions, ToolSource, ToolVerification, VideoCodec,
};

fn located(verification: ToolVerification) -> ToolAvailability {
    ToolAvailability::Located {
        tools: LocatedTools {
            ffmpeg: LocatedTool {
                source: ToolSource::SearchPath,
                path: "/usr/bin/ffmpeg".to_owned(),
            },
            ffprobe: LocatedTool {
                source: ToolSource::SearchPath,
                path: "/usr/bin/ffprobe".to_owned(),
            },
        },
        verification,
    }
}

fn verified(decoders: &[HardwareDecoder]) -> ToolAvailability {
    located(ToolVerification::Verified {
        revisions: ToolRevisions {
            ab_av1: "ab".to_owned(),
            ffmpeg: "ff".to_owned(),
            encoder: "enc".to_owned(),
        },
        hardware_decoders: decoders.to_vec(),
    })
}

fn base() -> ExecutionSettings {
    ExecutionSettings::production(AnalysisProfile::production(), false)
}

#[test]
fn unverified_tools_cannot_compose_a_claim() {
    let settings = Settings::default();
    let cases = [
        (ToolAvailability::default(), ExecutionUnavailable::ToolsMissing),
        (
            located(ToolVerification::Pending),
            ExecutionUnavailable::ToolsPending,
        ),
        (
            located(ToolVerification::Failed(ProbeFailure::TimedOut {
                capability: ToolCapability::VmafFilter,
            })),
            ExecutionUnavailable::ToolsFailed,
        ),
    ];
    for (tools, expected) in cases {
        assert_eq!(
            compose_execution(
                &base(),
                &tools,
                &settings,
                OverwriteDecision::FollowSettings,
                Some(&VideoCodec::H264)
            ),
            Err(expected)
        );
    }
}

#[test]
fn verified_revisions_become_the_profile_provenance() {
    let composed = compose_execution(
        &base(),
        &verified(&[]),
        &Settings::default(),
        OverwriteDecision::FollowSettings,
        None,
    )
    .ok();
    let Some(composed) = composed else {
        panic!("expected composed execution");
    };
    assert_eq!(composed.profile.ab_av1_revision, "ab");
    assert_eq!(composed.profile.ffmpeg_revision, "ff");
    assert_eq!(composed.profile.encoder_revision, "enc");
    assert_eq!(composed.validate(), Ok(()));
}

#[test]
fn overwrite_resolves_from_the_item_before_settings() {
    let mut settings = Settings::default();
    settings.output.overwrite_existing = true;
    let cases = [
        (OverwriteDecision::FollowSettings, true, true),
        (OverwriteDecision::FollowSettings, false, false),
        (OverwriteDecision::Allow, false, true),
        (OverwriteDecision::Deny, true, false),
    ];
    for (overwrite, from_settings, expected) in cases {
        settings.output.overwrite_existing = from_settings;
        let composed = compose_execution(&base(), &verified(&[]), &settings, overwrite, None).ok();
        assert_eq!(
            composed.map(|execution| execution.overwrite_existing),
            Some(expected)
        );
    }
}

#[test]
fn hardware_decode_picks_the_first_probed_candidate_for_the_codec() {
    let settings = Settings {
        hardware_decode: true,
        ..Settings::default()
    };
    let prores = VideoCodec::Other("prores".to_owned());
    let cases: [(&[HardwareDecoder], Option<&VideoCodec>, DecodeMode); 6] = [
        (
            &[HardwareDecoder::H264Qsv, HardwareDecoder::H264Cuvid],
            Some(&VideoCodec::H264),
            DecodeMode::Hardware(HardwareDecoder::H264Cuvid),
        ),
        (
            &[HardwareDecoder::H264Qsv],
            Some(&VideoCodec::H264),
            DecodeMode::Hardware(HardwareDecoder::H264Qsv),
        ),
        (
            &[HardwareDecoder::H264Cuvid],
            Some(&VideoCodec::Hevc),
            DecodeMode::Software,
        ),
        (&[], Some(&VideoCodec::H264), DecodeMode::Software),
        (&[HardwareDecoder::H264Cuvid], Some(&prores), DecodeMode::Software),
        (&[HardwareDecoder::H264Cuvid], None, DecodeMode::Software),
    ];
    for (decoders, codec, expected) in cases {
        let composed = compose_execution(
            &base(),
            &verified(decoders),
            &settings,
            OverwriteDecision::FollowSettings,
            codec,
        )
        .ok();
        assert_eq!(
            composed.as_ref().map(|execution| execution.decode_preference),
            Some(DecodePreference::HardwarePreferred)
        );
        assert_eq!(
            composed.map(|execution| execution.profile.decode_mode),
            Some(expected)
        );
    }
}

#[test]
fn software_only_ignores_probed_decoders() {
    let settings = Settings {
        hardware_decode: false,
        ..Settings::default()
    };
    let composed = compose_execution(
        &base(),
        &verified(&[HardwareDecoder::H264Cuvid]),
        &settings,
        OverwriteDecision::FollowSettings,
        Some(&VideoCodec::H264),
    )
    .ok();
    assert_eq!(
        composed.as_ref().map(|execution| execution.decode_preference),
        Some(DecodePreference::SoftwareOnly)
    );
    assert_eq!(
        composed.map(|execution| execution.profile.decode_mode),
        Some(DecodeMode::Software)
    );
}

#[test]
fn each_codec_has_its_cuvid_decoder_first() {
    assert_eq!(
        decoder_candidates(&VideoCodec::Hevc),
        vec![HardwareDecoder::HevcCuvid, HardwareDecoder::HevcQsv]
    );
    assert_eq!(
        decoder_candidates(&VideoCodec::Av1),
        vec![HardwareDecoder::Av1Cuvid, HardwareDecoder::Av1Qsv]
    );
    assert!(decoder_candidates(&VideoCodec::Other("prores".to_owned())).is_empty());
}

#[test]
fn unavailable_tools_have_a_summary() {
    assert_eq!(
        ExecutionUnavailable::ToolsMissing.summary(),
        "media tools are not located"
    );
}
