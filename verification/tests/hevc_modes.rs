use video_hw::hevc::encode::{ExtensionFlags, hevc_encode_probe_slice_qp_delta, resolve_hevc_encode_parameter_mode_with_vui_safety, resolve_hevc_encode_probe_maintenance1_feature_enabled, resolve_hevc_encode_probe_session_dpb_limits};
use video_hw::hevc::modes::{
    HevcEncodeParameterMode,
    HevcEncodePrimaryProbeMode,
    HevcEncodeProbeBeginReferenceSlotMode,
    HevcEncodeProbeBeginSessionParametersMode,
    HevcEncodeProbeCodecInfoMode,
    HevcEncodeProbeControlMode,
    HevcEncodeProbeMaintenance1Mode,
    HevcEncodeProbeNaluMode,
    HevcEncodeProbePictureFlagsMode,
    HevcEncodeProbePictureInfoMode,
    HevcEncodeProbePictureResourceExtentMode,
    HevcEncodeProbeRateControlMode,
    HevcEncodeProbeReferenceIndexMode,
    HevcEncodeProbeReferenceListMode,
    HevcEncodeProbeRpsMode,
    HevcEncodeProbeSessionDpbMode,
    HevcEncodeProbeSetupReferenceSlotMode,
    parse_hevc_encode_parameter_mode,
    parse_hevc_encode_probe_begin_reference_slot_mode,
    parse_hevc_encode_probe_begin_session_parameters_mode,
    parse_hevc_encode_probe_codec_info_mode,
    parse_hevc_encode_probe_control_mode,
    parse_hevc_encode_probe_maintenance1_mode,
    parse_hevc_encode_probe_nalu_mode,
    parse_hevc_encode_probe_picture_flags_mode,
    parse_hevc_encode_probe_picture_info_mode,
    parse_hevc_encode_probe_picture_resource_extent_mode,
    parse_hevc_encode_probe_primary_mode,
    parse_hevc_encode_probe_rate_control_mode,
    parse_hevc_encode_probe_reference_index_mode,
    parse_hevc_encode_probe_reference_list_mode,
    parse_hevc_encode_probe_rps_mode,
    parse_hevc_encode_probe_session_dpb_mode,
    parse_hevc_encode_probe_setup_reference_slot_mode,
};

#[test]
fn extension_flags_require_all_three_hevc_encode_extensions() {
    let mut flags = ExtensionFlags::default();
    assert!(!flags.supports_hevc_encode());
    flags.has_video_queue = true;
    assert!(!flags.supports_hevc_encode());
    flags.has_video_encode_queue = true;
    assert!(!flags.supports_hevc_encode());
    flags.has_video_encode_h265 = true;
    assert!(flags.supports_hevc_encode());
}

#[test]
fn hevc_encode_slice_qp_delta_matches_ffmpeg_formula() {
    assert_eq!(hevc_encode_probe_slice_qp_delta(26, 0).unwrap(), 0);
    assert_eq!(hevc_encode_probe_slice_qp_delta(0, 0).unwrap(), -26);
    assert_eq!(hevc_encode_probe_slice_qp_delta(26, -2).unwrap(), 2);
}

#[test]
fn parse_hevc_encode_parameter_mode_defaults_to_sample() {
    assert_eq!(
        parse_hevc_encode_parameter_mode(None),
        HevcEncodeParameterMode::Sample
    );
    assert_eq!(
        parse_hevc_encode_parameter_mode(Some("")),
        HevcEncodeParameterMode::Sample
    );
    assert_eq!(
        parse_hevc_encode_parameter_mode(Some("sample")),
        HevcEncodeParameterMode::Sample
    );
}

#[test]
fn resolve_hevc_encode_parameter_mode_with_vui_safety_applies_only_for_sample_override_vui() {
    assert_eq!(
        resolve_hevc_encode_parameter_mode_with_vui_safety(
            HevcEncodeParameterMode::Sample,
            true,
            true
        ),
        HevcEncodeParameterMode::SampleSpsVuiFlagOff
    );
    assert_eq!(
        resolve_hevc_encode_parameter_mode_with_vui_safety(
            HevcEncodeParameterMode::Sample,
            false,
            true
        ),
        HevcEncodeParameterMode::Sample
    );
    assert_eq!(
        resolve_hevc_encode_parameter_mode_with_vui_safety(
            HevcEncodeParameterMode::Sample,
            true,
            false
        ),
        HevcEncodeParameterMode::Sample
    );
    assert_eq!(
        resolve_hevc_encode_parameter_mode_with_vui_safety(
            HevcEncodeParameterMode::SampleSpsNoVuiFlagOn,
            true,
            true
        ),
        HevcEncodeParameterMode::SampleSpsNoVuiFlagOn
    );
}

#[test]
fn parse_hevc_encode_parameter_mode_accepts_empty_template_aliases() {
    for alias in [
        "empty",
        "template",
        "minimal",
        "empty-template",
        "empty_template",
        "  EmPtY  ",
    ] {
        assert_eq!(
            parse_hevc_encode_parameter_mode(Some(alias)),
            HevcEncodeParameterMode::EmptyTemplate
        );
    }
}

#[test]
fn parse_hevc_encode_parameter_mode_accepts_sample_no_add_aliases() {
    for alias in [
        "sample-no-add",
        "sample_no_add",
        "sample-no-add-info",
        "sample_no_add_info",
        "sample-minimal",
        " Sample-No-Add ",
    ] {
        assert_eq!(
            parse_hevc_encode_parameter_mode(Some(alias)),
            HevcEncodeParameterMode::SampleNoAddInfo
        );
    }
}

#[test]
fn parse_hevc_encode_parameter_mode_accepts_sample_vps_only_aliases() {
    for alias in [
        "sample-vps-only",
        "sample_vps_only",
        "sample-vps",
        "vps-only",
        "vps_only",
        " Sample-Vps-Only ",
    ] {
        assert_eq!(
            parse_hevc_encode_parameter_mode(Some(alias)),
            HevcEncodeParameterMode::SampleVpsOnly
        );
    }
}

#[test]
fn parse_hevc_encode_parameter_mode_accepts_sample_sps_only_aliases() {
    for alias in [
        "sample-sps-only",
        "sample_sps_only",
        "sample-sps",
        "sps-only",
        "sps_only",
        " Sample-Sps-Only ",
    ] {
        assert_eq!(
            parse_hevc_encode_parameter_mode(Some(alias)),
            HevcEncodeParameterMode::SampleSpsOnly
        );
    }
}

#[test]
fn parse_hevc_encode_parameter_mode_accepts_sample_sps_no_vui_aliases() {
    for alias in [
        "sample-sps-no-vui",
        "sample_sps_no_vui",
        "sample-sps-no-vui-info",
        "sps-no-vui",
        "sps_no_vui",
        " Sample-Sps-No-Vui ",
    ] {
        assert_eq!(
            parse_hevc_encode_parameter_mode(Some(alias)),
            HevcEncodeParameterMode::SampleSpsNoVui
        );
    }
}

#[test]
fn parse_hevc_encode_parameter_mode_accepts_sample_sps_vui_flag_off_aliases() {
    for alias in [
        "sample-sps-vui-flag-off",
        "sample_sps_vui_flag_off",
        "sample-sps-flag-vui-off",
        "sps-vui-flag-off",
        "sps_vui_flag_off",
        " Sample-Sps-Vui-Flag-Off ",
    ] {
        assert_eq!(
            parse_hevc_encode_parameter_mode(Some(alias)),
            HevcEncodeParameterMode::SampleSpsVuiFlagOff
        );
    }
}

#[test]
fn parse_hevc_encode_parameter_mode_accepts_sample_sps_no_vui_flag_on_aliases() {
    for alias in [
        "sample-sps-no-vui-flag-on",
        "sample_sps_no_vui_flag_on",
        "sample-sps-vui-flag-on",
        "sps-no-vui-flag-on",
        "sps_no_vui_flag_on",
        " Sample-Sps-No-Vui-Flag-On ",
    ] {
        assert_eq!(
            parse_hevc_encode_parameter_mode(Some(alias)),
            HevcEncodeParameterMode::SampleSpsNoVuiFlagOn
        );
    }
}

#[test]
fn parse_hevc_encode_parameter_mode_accepts_sample_sps_no_rps_aliases() {
    for alias in [
        "sample-sps-no-rps",
        "sample_sps_no_rps",
        "sample-sps-no-ref-sets",
        "sps-no-rps",
        "sps_no_rps",
        " Sample-Sps-No-Rps ",
    ] {
        assert_eq!(
            parse_hevc_encode_parameter_mode(Some(alias)),
            HevcEncodeParameterMode::SampleSpsNoRps
        );
    }
}

#[test]
fn parse_hevc_encode_parameter_mode_accepts_sample_sps_safe_flags_aliases() {
    for alias in [
        "sample-sps-safe-flags",
        "sample_sps_safe_flags",
        "sample-sps-libx265-flags",
        "sps-safe-flags",
        "sps_safe_flags",
        " Sample-Sps-Safe-Flags ",
    ] {
        assert_eq!(
            parse_hevc_encode_parameter_mode(Some(alias)),
            HevcEncodeParameterMode::SampleSpsSafeFlags
        );
    }
}

#[test]
fn parse_hevc_encode_parameter_mode_accepts_sample_sps_level_aliases() {
    for alias in [
        "sample-sps-level",
        "sample_sps_level",
        "sample-sps-level-idc",
        "sps-level",
        "sps_level",
        " Sample-Sps-Level ",
    ] {
        assert_eq!(
            parse_hevc_encode_parameter_mode(Some(alias)),
            HevcEncodeParameterMode::SampleSpsLevel
        );
    }
}

#[test]
fn parse_hevc_encode_parameter_mode_accepts_sample_sps_sub_layer_ordering_aliases() {
    for alias in [
        "sample-sps-sub-layer-ordering",
        "sample_sps_sub_layer_ordering",
        "sample-sps-ordering",
        "sps-ordering",
        "sps_ordering",
        " Sample-Sps-Sub-Layer-Ordering ",
    ] {
        assert_eq!(
            parse_hevc_encode_parameter_mode(Some(alias)),
            HevcEncodeParameterMode::SampleSpsSubLayerOrdering
        );
    }
}

#[test]
fn parse_hevc_encode_parameter_mode_accepts_sample_sps_level_ordering_aliases() {
    for alias in [
        "sample-sps-level-ordering",
        "sample_sps_level_ordering",
        "sample-sps-libx265-shape",
        "sps-level-ordering",
        "sps_level_ordering",
        " Sample-Sps-Level-Ordering ",
    ] {
        assert_eq!(
            parse_hevc_encode_parameter_mode(Some(alias)),
            HevcEncodeParameterMode::SampleSpsLevelOrdering
        );
    }
}

#[test]
fn parse_hevc_encode_parameter_mode_accepts_sample_pps_only_aliases() {
    for alias in [
        "sample-pps-only",
        "sample_pps_only",
        "sample-pps",
        "pps-only",
        "pps_only",
        " Sample-Pps-Only ",
    ] {
        assert_eq!(
            parse_hevc_encode_parameter_mode(Some(alias)),
            HevcEncodeParameterMode::SamplePpsOnly
        );
    }
}

#[test]
fn parse_hevc_encode_probe_reference_index_mode_defaults_to_minus_one() {
    assert_eq!(
        parse_hevc_encode_probe_reference_index_mode(None),
        HevcEncodeProbeReferenceIndexMode::MinusOne
    );
    assert_eq!(
        parse_hevc_encode_probe_reference_index_mode(Some("")),
        HevcEncodeProbeReferenceIndexMode::MinusOne
    );
    assert_eq!(
        parse_hevc_encode_probe_reference_index_mode(Some("minus-one")),
        HevcEncodeProbeReferenceIndexMode::MinusOne
    );
}

#[test]
fn parse_hevc_encode_probe_reference_index_mode_accepts_zero_aliases() {
    for alias in ["zero", "0", " Zero "] {
        assert_eq!(
            parse_hevc_encode_probe_reference_index_mode(Some(alias)),
            HevcEncodeProbeReferenceIndexMode::Zero
        );
    }
}

#[test]
fn parse_hevc_encode_probe_control_mode_defaults_to_default() {
    assert_eq!(
        parse_hevc_encode_probe_control_mode(None),
        HevcEncodeProbeControlMode::Default
    );
    assert_eq!(
        parse_hevc_encode_probe_control_mode(Some("")),
        HevcEncodeProbeControlMode::Default
    );
}

#[test]
fn parse_hevc_encode_probe_control_mode_accepts_ffmpeg_aliases() {
    for alias in ["ffmpeg", "ffmpeg-like", "ffmpeg_like", "compat", " FfMpEg "] {
        assert_eq!(
            parse_hevc_encode_probe_control_mode(Some(alias)),
            HevcEncodeProbeControlMode::Ffmpeg
        );
    }
}

#[test]
fn parse_hevc_encode_probe_control_mode_accepts_none_aliases() {
    for alias in [
        "none",
        "off",
        "disable",
        "disabled",
        "no-control",
        "no_control",
        " NoNe ",
    ] {
        assert_eq!(
            parse_hevc_encode_probe_control_mode(Some(alias)),
            HevcEncodeProbeControlMode::NoControl
        );
    }
}

#[test]
fn parse_hevc_encode_probe_nalu_mode_defaults_to_single_slice() {
    assert_eq!(
        parse_hevc_encode_probe_nalu_mode(None),
        HevcEncodeProbeNaluMode::SingleSlice
    );
    assert_eq!(
        parse_hevc_encode_probe_nalu_mode(Some("")),
        HevcEncodeProbeNaluMode::SingleSlice
    );
    assert_eq!(
        parse_hevc_encode_probe_nalu_mode(Some("single-slice")),
        HevcEncodeProbeNaluMode::SingleSlice
    );
}

#[test]
fn parse_hevc_encode_probe_nalu_mode_accepts_empty_aliases() {
    for alias in ["empty", "none", "off", "no-slices", "no_slices", " Empty "] {
        assert_eq!(
            parse_hevc_encode_probe_nalu_mode(Some(alias)),
            HevcEncodeProbeNaluMode::Empty
        );
    }
}

#[test]
fn parse_hevc_encode_probe_codec_info_mode_defaults_to_with_h265_info() {
    assert_eq!(
        parse_hevc_encode_probe_codec_info_mode(None),
        HevcEncodeProbeCodecInfoMode::WithH265Info
    );
    assert_eq!(
        parse_hevc_encode_probe_codec_info_mode(Some("")),
        HevcEncodeProbeCodecInfoMode::WithH265Info
    );
    assert_eq!(
        parse_hevc_encode_probe_codec_info_mode(Some("with-h265-info")),
        HevcEncodeProbeCodecInfoMode::WithH265Info
    );
}

#[test]
fn parse_hevc_encode_probe_codec_info_mode_accepts_minimal_aliases() {
    for alias in [
        "with-h265-info-minimal",
        "with_h265_info_minimal",
        "with-h265-minimal",
        "with_h265_minimal",
        "minimal-h265-info",
        "minimal_h265_info",
        "minimal",
        " Minimal ",
    ] {
        assert_eq!(
            parse_hevc_encode_probe_codec_info_mode(Some(alias)),
            HevcEncodeProbeCodecInfoMode::WithH265InfoMinimal
        );
    }
}

#[test]
fn parse_hevc_encode_probe_codec_info_mode_accepts_std_picture_only_aliases() {
    for alias in [
        "with-h265-info-std-picture-only",
        "with_h265_info_std_picture_only",
        "with-h265-info-std-only",
        "with_h265_info_std_only",
        "std-picture-only",
        "std_picture_only",
        "std-only",
        "std_only",
        "std",
        " Std ",
    ] {
        assert_eq!(
            parse_hevc_encode_probe_codec_info_mode(Some(alias)),
            HevcEncodeProbeCodecInfoMode::WithH265InfoStdPictureOnly
        );
    }
}

#[test]
fn parse_hevc_encode_probe_codec_info_mode_accepts_empty_std_picture_aliases() {
    for alias in [
        "with-h265-info-empty-std-picture",
        "with_h265_info_empty_std_picture",
        "with-h265-info-empty-std",
        "with_h265_info_empty_std",
        "with-h265-empty-std",
        "with_h265_empty_std",
        "empty-std-picture",
        "empty_std_picture",
        "empty-std",
        "empty_std",
        " Empty-Std ",
    ] {
        assert_eq!(
            parse_hevc_encode_probe_codec_info_mode(Some(alias)),
            HevcEncodeProbeCodecInfoMode::WithH265InfoEmptyStdPicture
        );
    }
}

#[test]
fn parse_hevc_encode_probe_codec_info_mode_accepts_no_std_picture_aliases() {
    for alias in [
        "with-h265-info-no-std-picture",
        "with_h265_info_no_std_picture",
        "with-h265-info-no-std",
        "with_h265_info_no_std",
        "with-h265-no-std",
        "with_h265_no_std",
        "no-std-picture",
        "no_std_picture",
        "nostd",
        " NoStd ",
    ] {
        assert_eq!(
            parse_hevc_encode_probe_codec_info_mode(Some(alias)),
            HevcEncodeProbeCodecInfoMode::WithH265InfoNoStdPicture
        );
    }
}

#[test]
fn parse_hevc_encode_probe_codec_info_mode_accepts_without_aliases() {
    for alias in [
        "without",
        "without-h265",
        "without_h265",
        "without-h265-info",
        "without_h265_info",
        "none",
        "off",
        "disable",
        "disabled",
        " Without ",
    ] {
        assert_eq!(
            parse_hevc_encode_probe_codec_info_mode(Some(alias)),
            HevcEncodeProbeCodecInfoMode::WithoutH265Info
        );
    }
}

#[test]
fn parse_hevc_encode_probe_primary_mode_defaults_to_submit() {
    assert_eq!(
        parse_hevc_encode_probe_primary_mode(None),
        HevcEncodePrimaryProbeMode::Submit
    );
    assert_eq!(
        parse_hevc_encode_probe_primary_mode(Some("")),
        HevcEncodePrimaryProbeMode::Submit
    );
    assert_eq!(
        parse_hevc_encode_probe_primary_mode(Some("submit")),
        HevcEncodePrimaryProbeMode::Submit
    );
}

#[test]
fn parse_hevc_encode_probe_primary_mode_accepts_aliases() {
    for alias in [
        "scope-only",
        "scope_only",
        "scope",
        "coding-scope",
        "coding_scope",
        "coding",
    ] {
        assert_eq!(
            parse_hevc_encode_probe_primary_mode(Some(alias)),
            HevcEncodePrimaryProbeMode::ScopeOnly
        );
    }
    for alias in [
        "pre-encode-scope",
        "pre_encode_scope",
        "pre-encode-scope-only",
        "pre_encode_scope_only",
        "pre-scope",
        "prescope",
    ] {
        assert_eq!(
            parse_hevc_encode_probe_primary_mode(Some(alias)),
            HevcEncodePrimaryProbeMode::PreEncodeScopeOnly
        );
    }
    for alias in [
        "pre-encode",
        "pre_encode",
        "encode-only",
        "encode_only",
        "encode",
    ] {
        assert_eq!(
            parse_hevc_encode_probe_primary_mode(Some(alias)),
            HevcEncodePrimaryProbeMode::PreEncode
        );
    }
    for alias in [
        "pre-encode-minimal",
        "pre_encode_minimal",
        "minimal",
        "encode-minimal",
        "encode_minimal",
    ] {
        assert_eq!(
            parse_hevc_encode_probe_primary_mode(Some(alias)),
            HevcEncodePrimaryProbeMode::PreEncodeMinimal
        );
    }
}

#[test]
fn parse_hevc_encode_probe_picture_flags_mode_defaults_to_default() {
    assert_eq!(
        parse_hevc_encode_probe_picture_flags_mode(None),
        HevcEncodeProbePictureFlagsMode::Default
    );
    assert_eq!(
        parse_hevc_encode_probe_picture_flags_mode(Some("")),
        HevcEncodeProbePictureFlagsMode::Default
    );
}

#[test]
fn parse_hevc_encode_probe_picture_flags_mode_accepts_non_reference_aliases() {
    for alias in [
        "non-reference",
        "non_reference",
        "nonref",
        "non-ref",
        "non_ref",
        "p-frame-like",
        "p_frame_like",
        " Non-Reference ",
    ] {
        assert_eq!(
            parse_hevc_encode_probe_picture_flags_mode(Some(alias)),
            HevcEncodeProbePictureFlagsMode::NonReference
        );
    }
}

#[test]
fn parse_hevc_encode_probe_picture_info_mode_defaults_to_default() {
    assert_eq!(
        parse_hevc_encode_probe_picture_info_mode(None),
        HevcEncodeProbePictureInfoMode::Default
    );
    assert_eq!(
        parse_hevc_encode_probe_picture_info_mode(Some("")),
        HevcEncodeProbePictureInfoMode::Default
    );
    assert_eq!(
        parse_hevc_encode_probe_picture_info_mode(Some("default")),
        HevcEncodeProbePictureInfoMode::Default
    );
}

#[test]
fn parse_hevc_encode_probe_picture_info_mode_accepts_aliases() {
    for alias in [
        "intra-i",
        "intra_i",
        "intra",
        "i",
        "i-frame",
        "i_frame",
        " Intra-I ",
    ] {
        assert_eq!(
            parse_hevc_encode_probe_picture_info_mode(Some(alias)),
            HevcEncodeProbePictureInfoMode::IntraI
        );
    }
    for alias in [
        "inter-p",
        "inter_p",
        "inter",
        "p",
        "p-frame",
        "p_frame",
        " Inter-P ",
    ] {
        assert_eq!(
            parse_hevc_encode_probe_picture_info_mode(Some(alias)),
            HevcEncodeProbePictureInfoMode::InterP
        );
    }
    for alias in [
        "temporal-1",
        "temporal_1",
        "temporal1",
        "tid-1",
        "tid_1",
        "t1",
        " Temporal-1 ",
    ] {
        assert_eq!(
            parse_hevc_encode_probe_picture_info_mode(Some(alias)),
            HevcEncodeProbePictureInfoMode::Temporal1
        );
    }
    for alias in [
        "poc-1",
        "poc_1",
        "poc1",
        "poc-plus-one",
        "poc_plus_one",
        " POC-1 ",
    ] {
        assert_eq!(
            parse_hevc_encode_probe_picture_info_mode(Some(alias)),
            HevcEncodeProbePictureInfoMode::Poc1
        );
    }
}

#[test]
fn parse_hevc_encode_probe_rate_control_mode_defaults_to_auto() {
    assert_eq!(
        parse_hevc_encode_probe_rate_control_mode(None),
        HevcEncodeProbeRateControlMode::Auto
    );
    assert_eq!(
        parse_hevc_encode_probe_rate_control_mode(Some("")),
        HevcEncodeProbeRateControlMode::Auto
    );
    assert_eq!(
        parse_hevc_encode_probe_rate_control_mode(Some("auto")),
        HevcEncodeProbeRateControlMode::Auto
    );
}

#[test]
fn parse_hevc_encode_probe_rate_control_mode_accepts_aliases() {
    for alias in ["disabled", "disable", "off", " DisAbled "] {
        assert_eq!(
            parse_hevc_encode_probe_rate_control_mode(Some(alias)),
            HevcEncodeProbeRateControlMode::Disabled
        );
    }
    assert_eq!(
        parse_hevc_encode_probe_rate_control_mode(Some("cbr")),
        HevcEncodeProbeRateControlMode::Cbr
    );
    assert_eq!(
        parse_hevc_encode_probe_rate_control_mode(Some("vbr")),
        HevcEncodeProbeRateControlMode::Vbr
    );
    for alias in ["none", "null", " None "] {
        assert_eq!(
            parse_hevc_encode_probe_rate_control_mode(Some(alias)),
            HevcEncodeProbeRateControlMode::NoRateControl
        );
    }
}

#[test]
fn parse_hevc_encode_probe_maintenance1_mode_defaults_to_auto() {
    assert_eq!(
        parse_hevc_encode_probe_maintenance1_mode(None),
        HevcEncodeProbeMaintenance1Mode::Auto
    );
    assert_eq!(
        parse_hevc_encode_probe_maintenance1_mode(Some("")),
        HevcEncodeProbeMaintenance1Mode::Auto
    );
    assert_eq!(
        parse_hevc_encode_probe_maintenance1_mode(Some("auto")),
        HevcEncodeProbeMaintenance1Mode::Auto
    );
}

#[test]
fn parse_hevc_encode_probe_maintenance1_mode_accepts_aliases() {
    for alias in [
        "on", "enable", "enabled", "force-on", "force_on", "true", "1",
    ] {
        assert_eq!(
            parse_hevc_encode_probe_maintenance1_mode(Some(alias)),
            HevcEncodeProbeMaintenance1Mode::On
        );
    }
    for alias in [
        "off",
        "disable",
        "disabled",
        "force-off",
        "force_off",
        "false",
        "0",
        "none",
    ] {
        assert_eq!(
            parse_hevc_encode_probe_maintenance1_mode(Some(alias)),
            HevcEncodeProbeMaintenance1Mode::Off
        );
    }
}

#[test]
fn resolve_hevc_encode_probe_maintenance1_feature_enabled_respects_mode() {
    assert!(resolve_hevc_encode_probe_maintenance1_feature_enabled(
        HevcEncodeProbeMaintenance1Mode::Auto,
        true,
        true,
    ));
    assert!(resolve_hevc_encode_probe_maintenance1_feature_enabled(
        HevcEncodeProbeMaintenance1Mode::On,
        true,
        true,
    ));
    assert!(!resolve_hevc_encode_probe_maintenance1_feature_enabled(
        HevcEncodeProbeMaintenance1Mode::Off,
        true,
        true,
    ));
    assert!(!resolve_hevc_encode_probe_maintenance1_feature_enabled(
        HevcEncodeProbeMaintenance1Mode::On,
        true,
        false,
    ));
    assert!(!resolve_hevc_encode_probe_maintenance1_feature_enabled(
        HevcEncodeProbeMaintenance1Mode::On,
        false,
        true,
    ));
}

#[test]
fn parse_hevc_encode_probe_session_dpb_mode_defaults_to_default() {
    assert_eq!(
        parse_hevc_encode_probe_session_dpb_mode(None),
        HevcEncodeProbeSessionDpbMode::Default
    );
    assert_eq!(
        parse_hevc_encode_probe_session_dpb_mode(Some("")),
        HevcEncodeProbeSessionDpbMode::Default
    );
    assert_eq!(
        parse_hevc_encode_probe_session_dpb_mode(Some("default")),
        HevcEncodeProbeSessionDpbMode::Default
    );
}

#[test]
fn parse_hevc_encode_probe_session_dpb_mode_accepts_minimal_aliases() {
    for alias in [
        "minimal",
        "minimal-one",
        "minimal_1",
        "minimal1",
        "one",
        "1",
        " Minimal-One ",
    ] {
        assert_eq!(
            parse_hevc_encode_probe_session_dpb_mode(Some(alias)),
            HevcEncodeProbeSessionDpbMode::MinimalOne
        );
    }
}

#[test]
fn parse_hevc_encode_probe_picture_resource_extent_mode_defaults_to_coded() {
    assert_eq!(
        parse_hevc_encode_probe_picture_resource_extent_mode(None),
        HevcEncodeProbePictureResourceExtentMode::Coded
    );
    assert_eq!(
        parse_hevc_encode_probe_picture_resource_extent_mode(Some("")),
        HevcEncodeProbePictureResourceExtentMode::Coded
    );
    assert_eq!(
        parse_hevc_encode_probe_picture_resource_extent_mode(Some("coded")),
        HevcEncodeProbePictureResourceExtentMode::Coded
    );
}

#[test]
fn parse_hevc_encode_probe_picture_resource_extent_mode_accepts_image_aliases() {
    for alias in [
        "image",
        "image-aligned",
        "image_aligned",
        "aligned",
        "align",
        "pad",
        "padded",
        "1",
        " Image-Aligned ",
    ] {
        assert_eq!(
            parse_hevc_encode_probe_picture_resource_extent_mode(Some(alias)),
            HevcEncodeProbePictureResourceExtentMode::ImageAligned
        );
    }
}

#[test]
fn resolve_hevc_encode_probe_session_dpb_limits_respects_mode() {
    assert_eq!(
        resolve_hevc_encode_probe_session_dpb_limits(
            HevcEncodeProbeSessionDpbMode::Default,
            16,
            15,
        ),
        (16, 15)
    );
    assert_eq!(
        resolve_hevc_encode_probe_session_dpb_limits(
            HevcEncodeProbeSessionDpbMode::Default,
            0,
            0,
        ),
        (1, 1)
    );
    assert_eq!(
        resolve_hevc_encode_probe_session_dpb_limits(
            HevcEncodeProbeSessionDpbMode::MinimalOne,
            16,
            15,
        ),
        (1, 1)
    );
}

#[test]
fn parse_hevc_encode_probe_reference_list_mode_defaults_to_sentinel() {
    assert_eq!(
        parse_hevc_encode_probe_reference_list_mode(None),
        HevcEncodeProbeReferenceListMode::Sentinel
    );
    assert_eq!(
        parse_hevc_encode_probe_reference_list_mode(Some("")),
        HevcEncodeProbeReferenceListMode::Sentinel
    );
}

#[test]
fn parse_hevc_encode_probe_reference_list_mode_accepts_null_aliases() {
    for alias in [
        "null",
        "null-pointer",
        "null-pointers",
        "null_pointer",
        "null_pointers",
        " Null ",
    ] {
        assert_eq!(
            parse_hevc_encode_probe_reference_list_mode(Some(alias)),
            HevcEncodeProbeReferenceListMode::NullPointers
        );
    }
}

#[test]
fn parse_hevc_encode_probe_rps_mode_defaults_to_empty_struct() {
    assert_eq!(
        parse_hevc_encode_probe_rps_mode(None),
        HevcEncodeProbeRpsMode::EmptyStruct
    );
    assert_eq!(
        parse_hevc_encode_probe_rps_mode(Some("")),
        HevcEncodeProbeRpsMode::EmptyStruct
    );
    assert_eq!(
        parse_hevc_encode_probe_rps_mode(Some("empty-struct")),
        HevcEncodeProbeRpsMode::EmptyStruct
    );
}

#[test]
fn parse_hevc_encode_probe_rps_mode_accepts_null_aliases() {
    for alias in ["null", "null-pointers", "null_pointers", " Null "] {
        assert_eq!(
            parse_hevc_encode_probe_rps_mode(Some(alias)),
            HevcEncodeProbeRpsMode::NullPointers
        );
    }
}

#[test]
fn parse_hevc_encode_probe_begin_reference_slot_mode_defaults_to_slot_minus_one() {
    assert_eq!(
        parse_hevc_encode_probe_begin_reference_slot_mode(None),
        HevcEncodeProbeBeginReferenceSlotMode::SlotMinusOne
    );
    assert_eq!(
        parse_hevc_encode_probe_begin_reference_slot_mode(Some("")),
        HevcEncodeProbeBeginReferenceSlotMode::SlotMinusOne
    );
}

#[test]
fn parse_hevc_encode_probe_begin_reference_slot_mode_accepts_none_aliases() {
    for alias in ["none", "off", "disable", "disabled", " None "] {
        assert_eq!(
            parse_hevc_encode_probe_begin_reference_slot_mode(Some(alias)),
            HevcEncodeProbeBeginReferenceSlotMode::NoSlot
        );
    }
}

#[test]
fn begin_slot_without_codec_info_is_a_mode_of_its_own() {
    let mode =
        parse_hevc_encode_probe_begin_reference_slot_mode(Some("slot-minus-one-no-codec-info"));
    assert_eq!(mode, HevcEncodeProbeBeginReferenceSlotMode::SlotMinusOneNoCodecInfo);
    for other in ["slot-minus-one", "none"] {
        assert_ne!(parse_hevc_encode_probe_begin_reference_slot_mode(Some(other)), mode);
    }
}

#[test]
fn parse_hevc_encode_probe_begin_session_parameters_mode_defaults_to_with() {
    assert_eq!(
        parse_hevc_encode_probe_begin_session_parameters_mode(None),
        HevcEncodeProbeBeginSessionParametersMode::With
    );
    assert_eq!(
        parse_hevc_encode_probe_begin_session_parameters_mode(Some("")),
        HevcEncodeProbeBeginSessionParametersMode::With
    );
    assert_eq!(
        parse_hevc_encode_probe_begin_session_parameters_mode(Some("with")),
        HevcEncodeProbeBeginSessionParametersMode::With
    );
}

#[test]
fn parse_hevc_encode_probe_begin_session_parameters_mode_accepts_without_aliases() {
    for alias in [
        "without",
        "none",
        "off",
        "disable",
        "disabled",
        "no-params",
        "no_params",
        "0",
        " Without ",
    ] {
        assert_eq!(
            parse_hevc_encode_probe_begin_session_parameters_mode(Some(alias)),
            HevcEncodeProbeBeginSessionParametersMode::Without
        );
    }
}

#[test]
fn parse_hevc_encode_probe_setup_reference_slot_mode_defaults_to_slot_zero() {
    assert_eq!(
        parse_hevc_encode_probe_setup_reference_slot_mode(None),
        HevcEncodeProbeSetupReferenceSlotMode::SlotZero
    );
    assert_eq!(
        parse_hevc_encode_probe_setup_reference_slot_mode(Some("")),
        HevcEncodeProbeSetupReferenceSlotMode::SlotZero
    );
}

#[test]
fn parse_hevc_encode_probe_setup_reference_slot_mode_accepts_none_aliases() {
    for alias in ["none", "off", "disable", "disabled", " None "] {
        assert_eq!(
            parse_hevc_encode_probe_setup_reference_slot_mode(Some(alias)),
            HevcEncodeProbeSetupReferenceSlotMode::NoSlot
        );
    }
}

