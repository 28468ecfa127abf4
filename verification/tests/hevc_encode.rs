use ash::vk;
use video_hw::hevc::encode::{
    apply_hevc_encode_parameter_mode_sps_overrides,
    apply_hevc_encode_parameter_mode_std_overrides, hevc_encode_h265_rate_control_info,
    hevc_encode_parameter_mode_add_info_filter, hevc_encode_probe_constant_qp,
    hevc_encode_probe_parameter_sample_override_path, hevc_encode_probe_pic_order_cnt_val,
    hevc_encode_probe_picture_type, hevc_encode_probe_slice_qp_delta,
    hevc_encode_probe_slice_type, hevc_encode_probe_temporal_id,
    hevc_encode_std_slice_segment_header_flags,
    resolve_hevc_encode_probe_selected_rate_control_mode,
    validate_hevc_encode_probe_parameter_profile, ExtensionFlags, HevcSequenceParameters,
    ValidationMessages, H265_PICTURE_TYPE_I, H265_PICTURE_TYPE_IDR, H265_PICTURE_TYPE_P,
    H265_SLICE_TYPE_I, H265_SLICE_TYPE_P, RATE_CONTROL_CBR, RATE_CONTROL_DISABLED,
    RATE_CONTROL_VBR,
};
use video_hw::hevc::modes::{
    hevc_encode_parameter_mode_label, parse_hevc_encode_parameter_mode, HevcEncodeParameterMode,
    HevcEncodePreEncodeProbeMode, HevcEncodePrimaryProbeMode,
    HevcEncodeProbeBeginReferenceSlotMode, HevcEncodeProbeBeginSessionParametersMode,
    HevcEncodeProbeCodecInfoMode, HevcEncodeProbeControlMode, HevcEncodeProbeMaintenance1Mode,
    HevcEncodeProbeNaluMode, HevcEncodeProbePictureFlagsMode, HevcEncodeProbePictureInfoMode,
    HevcEncodeProbePictureResourceExtentMode, HevcEncodeProbeRateControlMode,
    HevcEncodeProbeReferenceIndexMode, HevcEncodeProbeReferenceListMode, HevcEncodeProbeRpsMode,
    HevcEncodeProbeSessionDpbMode, HevcEncodeProbeSetupReferenceSlotMode,
};
use video_hw::hevc::parity::{
    HevcEncodeBeginNextMode, HevcEncodeDpbBarrierMode, HevcEncodeDstRangeMode,
    HevcEncodeImageViewMode, HevcEncodeParameterSizeMode, HevcEncodeParitySettings,
    HevcEncodeReferenceSlotPointerMode, HevcEncodeVuiSafety,
};
use video_hw::hevc::session::{
    check_bootstrap_dimensions, hevc_encode_format_pairs, order_candidates,
    plan_hevc_session_parameters, report_hevc_encode_bootstrap, selection_score,
    AdapterEncodeSupport, HevcEncodeAdapter, HevcEncodeCandidates, HevcEncodeCapabilitySnapshot,
    HevcEncodePrerequisiteProbe, HevcEncodeProbe, HevcEncodeVideoSessionCreateProbe,
    HevcEncodeVideoSessionParametersCreateProbe, HevcSessionOutcome, HevcSessionTrial,
    HevcSessionParametersRequest, HevcSessionTrials,
};
use video_hw::hevc::submit::{
    align_up, check_hevc_encode_feedback, describe_hevc_encode_probe, end_recording_failure,
    finish_hevc_encode_submit, hevc_encode_coding_control, hevc_encode_dst_buffer_range,
    hevc_encode_feedback_flags, hevc_encode_head_text, hevc_encode_image_extent,
    parameter_feedback_summary, plan_hevc_encode_submit, plan_hevc_encode_trial,
    primary_probe_failure, trial_end_failure, HevcEncodeFeedbackQueryResult,
    HevcEncodeParameterSetIds, HevcEncodeProbeModes, HevcEncodeSubmitExecutionConfig,
    HevcEncodeSubmitExecutionProbe, HevcTrialPicture,
};
use video_hw::vulkan::{find_video_codec_queue_family_index, QueueFamily};

fn names(list: &[&str]) -> Vec<String> {
    list.iter().map(|name| name.to_string()).collect()
}

fn config() -> HevcEncodeSubmitExecutionConfig {
    HevcEncodeSubmitExecutionConfig {
        queue_family_index: 3,
        parameter_set_ids: HevcEncodeParameterSetIds { vps_id: 1, sps_id: 2, pps_id: 3 },
        parameter_set_coded_width: 320,
        parameter_set_coded_height: 180,
        parameter_set_pps_init_qp_minus26: 0,
        parameter_set_sample_adaptive_offset_enabled: true,
        parameter_set_sps_temporal_mvp_enabled: false,
        std_syntax_flags: 2,
        parameter_mode: HevcEncodeParameterMode::Sample,
        coded_width: 320,
        coded_height: 180,
        picture_format: vk::Format::G8_B8R8_2PLANE_420_UNORM.as_raw(),
        reference_picture_format: vk::Format::G8_B8R8_2PLANE_420_UNORM.as_raw(),
        picture_access_granularity_width: 16,
        picture_access_granularity_height: 16,
        rate_control_modes: vk::VideoEncodeRateControlModeFlagsKHR::DISABLED.as_raw()
            | vk::VideoEncodeRateControlModeFlagsKHR::CBR.as_raw(),
        max_rate_control_layers: 1,
        max_quality_levels: 4,
        supported_encode_feedback_flags: 3,
        min_bitstream_buffer_offset_alignment: 0,
        min_bitstream_buffer_size_alignment: 256,
        maintenance1_mode: HevcEncodeProbeMaintenance1Mode::Auto,
        maintenance1_feature_enabled: true,
        session_dpb_mode: HevcEncodeProbeSessionDpbMode::Default,
        session_max_dpb_slots: 16,
        session_max_active_reference_pictures: 15,
    }
}

fn modes() -> HevcEncodeProbeModes {
    HevcEncodeProbeModes {
        rate_control: HevcEncodeProbeRateControlMode::Auto,
        reference_list: HevcEncodeProbeReferenceListMode::Sentinel,
        reference_index: HevcEncodeProbeReferenceIndexMode::MinusOne,
        rps: HevcEncodeProbeRpsMode::EmptyStruct,
        begin_reference_slot: HevcEncodeProbeBeginReferenceSlotMode::SlotMinusOne,
        setup_reference_slot: HevcEncodeProbeSetupReferenceSlotMode::SlotZero,
        begin_session_parameters: HevcEncodeProbeBeginSessionParametersMode::With,
        control: HevcEncodeProbeControlMode::Default,
        nalu: HevcEncodeProbeNaluMode::SingleSlice,
        codec_info: HevcEncodeProbeCodecInfoMode::WithH265Info,
        primary: HevcEncodePrimaryProbeMode::Submit,
        picture_flags: HevcEncodeProbePictureFlagsMode::Default,
        picture_info: HevcEncodeProbePictureInfoMode::Default,
        picture_resource_extent: HevcEncodeProbePictureResourceExtentMode::Coded,
        parity: HevcEncodeParitySettings::default(),
    }
}

fn capabilities() -> HevcEncodeCapabilitySnapshot {
    HevcEncodeCapabilitySnapshot {
        min_coded_width: 16,
        min_coded_height: 16,
        max_coded_width: 4096,
        max_coded_height: 2160,
        picture_access_granularity_width: 16,
        picture_access_granularity_height: 16,
        encode_input_granularity_width: 64,
        encode_input_granularity_height: 0,
        max_dpb_slots: 16,
        max_active_reference_pictures: 15,
        encode_capability_flags: 0,
        encode_h265_capability_flags: 0,
        std_syntax_flags: 2,
        rate_control_modes: 7,
        max_rate_control_layers: 1,
        max_bitrate: 1,
        max_quality_levels: 1,
        supported_encode_feedback_flags: 3,
        min_bitstream_buffer_offset_alignment: 1,
        min_bitstream_buffer_size_alignment: 1,
        max_level_idc: 1,
        video_maintenance1_extension_available: true,
        video_maintenance1_feature_supported: true,
    }
}

fn sample() -> HevcSequenceParameters {
    HevcSequenceParameters {
        profile_idc: 1,
        level_idc: Some(90),
        has_vui_parameters: true,
        amp_enabled_flag: true,
        sample_adaptive_offset_enabled_flag: true,
        sps_temporal_mvp_enabled_flag: false,
        strong_intra_smoothing_enabled_flag: false,
        short_term_ref_pic_set_count: 3,
        max_dec_pic_buffering_minus1: vec![1, 2],
        max_num_reorder_pics: vec![0, 0],
        max_latency_increase_plus1: vec![9, 9],
    }
}

#[test]
fn find_video_codec_queue_family_index_requires_h265_encode_operation() {
    let encode = vk::QueueFlags::VIDEO_ENCODE_KHR.as_raw();
    let families = vec![
        QueueFamily { queue_count: 1, queue_flags: encode },
        QueueFamily { queue_count: 1, queue_flags: encode },
    ];
    let operations = vec![
        vk::VideoCodecOperationFlagsKHR::DECODE_H265.as_raw(),
        vk::VideoCodecOperationFlagsKHR::ENCODE_H265.as_raw(),
    ];
    let index = find_video_codec_queue_family_index(
        &families,
        &operations,
        encode,
        vk::VideoCodecOperationFlagsKHR::ENCODE_H265.as_raw(),
    );
    assert_eq!(index, Some(1));
}

#[test]
fn find_video_codec_queue_family_index_falls_back_when_codec_metadata_absent() {
    let encode = vk::QueueFlags::VIDEO_ENCODE_KHR.as_raw();
    let families = vec![QueueFamily { queue_count: 1, queue_flags: encode }];
    let operations = vec![vk::VideoCodecOperationFlagsKHR::empty().as_raw()];
    let index = find_video_codec_queue_family_index(
        &families,
        &operations,
        encode,
        vk::VideoCodecOperationFlagsKHR::ENCODE_H265.as_raw(),
    );
    assert_eq!(index, Some(0));
}

#[test]
fn hevc_encode_probe_returns_stable_enum() {
    let status = HevcEncodeProbe::new().finish();
    match status {
        HevcEncodePrerequisiteProbe::Ready
        | HevcEncodePrerequisiteProbe::MissingExtensions { .. }
        | HevcEncodePrerequisiteProbe::MissingEncodeQueueFamily
        | HevcEncodePrerequisiteProbe::NoCompatibleAdapter
        | HevcEncodePrerequisiteProbe::DeviceInitializationFailed(_)
        | HevcEncodePrerequisiteProbe::ProbeUnavailable(_) => {}
    }
}

#[test]
fn hevc_encode_session_bootstrap_rejects_zero_dimensions() {
    let err = check_bootstrap_dimensions(0, 720)
        .expect_err("zero width must be rejected before Vulkan probing");
    assert!(err.contains("must be > 0"));
    assert_eq!(err, "HEVC encode bootstrap dimensions must be > 0, got 0x720");
    assert!(check_bootstrap_dimensions(1, 1).is_ok());
}

#[test]
fn hevc_encode_slice_header_flags_match_ffmpeg_baseline_shape() {
    let flags = hevc_encode_std_slice_segment_header_flags(true);
    assert!(flags.first_slice_segment_in_pic_flag);
    assert!(!flags.dependent_slice_segment_flag);
    assert!(flags.slice_sao_luma_flag);
    assert!(flags.slice_sao_chroma_flag);
    assert!(!flags.num_ref_idx_active_override_flag);
    assert!(!flags.cabac_init_flag);
    assert!(flags.collocated_from_l0_flag);
    assert!(!flags.slice_loop_filter_across_slices_enabled_flag);

    let no_sao_flags = hevc_encode_std_slice_segment_header_flags(false);
    assert!(!no_sao_flags.slice_sao_luma_flag);
    assert!(!no_sao_flags.slice_sao_chroma_flag);
    assert!(no_sao_flags.collocated_from_l0_flag);
}

#[test]
fn hevc_encode_rate_control_info_matches_ffmpeg_baseline_shape() {
    let info = hevc_encode_h265_rate_control_info();
    let flags = vk::VideoEncodeH265RateControlFlagsKHR::from_raw(info.flags);
    assert!(flags.contains(vk::VideoEncodeH265RateControlFlagsKHR::REFERENCE_PATTERN_FLAT));
    assert!(flags.contains(vk::VideoEncodeH265RateControlFlagsKHR::REGULAR_GOP));
    assert_eq!(info.gop_frame_count, 30);
    assert_eq!(info.idr_period, 30);
    assert_eq!(info.consecutive_b_frame_count, 0);
    assert_eq!(info.sub_layer_count, 0);
}

#[test]
fn hevc_encode_constant_qp_matches_ffmpeg_rate_control_shape() {
    assert_eq!(hevc_encode_probe_constant_qp(None), 26);
    assert_eq!(
        hevc_encode_probe_constant_qp(Some(
            vk::VideoEncodeRateControlModeFlagsKHR::DISABLED.as_raw()
        )),
        26
    );
    assert_eq!(
        hevc_encode_probe_constant_qp(Some(vk::VideoEncodeRateControlModeFlagsKHR::CBR.as_raw())),
        0
    );
    assert_eq!(
        hevc_encode_probe_constant_qp(Some(vk::VideoEncodeRateControlModeFlagsKHR::VBR.as_raw())),
        0
    );
}

#[test]
fn resolve_hevc_encode_probe_selected_rate_control_mode_respects_request() {
    let disabled = vk::VideoEncodeRateControlModeFlagsKHR::DISABLED.as_raw();
    let cbr = vk::VideoEncodeRateControlModeFlagsKHR::CBR.as_raw();
    let vbr = vk::VideoEncodeRateControlModeFlagsKHR::VBR.as_raw();
    let available = disabled | cbr | vbr;
    for (mode, expected) in [
        (HevcEncodeProbeRateControlMode::Auto, Some(disabled)),
        (HevcEncodeProbeRateControlMode::Disabled, Some(disabled)),
        (HevcEncodeProbeRateControlMode::Cbr, Some(cbr)),
        (HevcEncodeProbeRateControlMode::Vbr, Some(vbr)),
        (HevcEncodeProbeRateControlMode::NoRateControl, None),
    ] {
        assert_eq!(
            resolve_hevc_encode_probe_selected_rate_control_mode(mode, available, 1),
            expected
        );
    }
}

#[test]
fn resolve_hevc_encode_probe_selected_rate_control_mode_returns_none_when_unavailable() {
    let cbr = vk::VideoEncodeRateControlModeFlagsKHR::CBR.as_raw();
    assert_eq!(
        resolve_hevc_encode_probe_selected_rate_control_mode(
            HevcEncodeProbeRateControlMode::Disabled,
            cbr,
            1
        ),
        None
    );
    assert_eq!(
        resolve_hevc_encode_probe_selected_rate_control_mode(
            HevcEncodeProbeRateControlMode::Cbr,
            cbr,
            0
        ),
        None
    );
    assert_eq!(
        resolve_hevc_encode_probe_selected_rate_control_mode(
            HevcEncodeProbeRateControlMode::Vbr,
            vk::VideoEncodeRateControlModeFlagsKHR::empty().as_raw(),
            1
        ),
        None
    );
}

#[test]
fn hevc_encode_probe_parameter_profile_validation_rejects_non_main_profile() {
    let err = validate_hevc_encode_probe_parameter_profile(4)
        .expect_err("non-Main profile must be rejected");
    assert!(err.contains("profile_idc=4"));
    assert!(err.contains("Main profile"));
    assert!(validate_hevc_encode_probe_parameter_profile(1).is_ok());
}

#[test]
fn constants_are_those_of_the_bindings() {
    assert_eq!(RATE_CONTROL_DISABLED, vk::VideoEncodeRateControlModeFlagsKHR::DISABLED.as_raw());
    assert_eq!(RATE_CONTROL_CBR, vk::VideoEncodeRateControlModeFlagsKHR::CBR.as_raw());
    assert_eq!(RATE_CONTROL_VBR, vk::VideoEncodeRateControlModeFlagsKHR::VBR.as_raw());
    assert_eq!(
        H265_PICTURE_TYPE_IDR,
        vk::native::StdVideoH265PictureType_STD_VIDEO_H265_PICTURE_TYPE_IDR
    );
    assert_eq!(
        H265_PICTURE_TYPE_I,
        vk::native::StdVideoH265PictureType_STD_VIDEO_H265_PICTURE_TYPE_I
    );
    assert_eq!(
        H265_PICTURE_TYPE_P,
        vk::native::StdVideoH265PictureType_STD_VIDEO_H265_PICTURE_TYPE_P
    );
    assert_eq!(H265_SLICE_TYPE_I, vk::native::StdVideoH265SliceType_STD_VIDEO_H265_SLICE_TYPE_I);
    assert_eq!(H265_SLICE_TYPE_P, vk::native::StdVideoH265SliceType_STD_VIDEO_H265_SLICE_TYPE_P);
}

#[test]
fn picture_values_follow_the_picture_mode() {
    let expected = [
        (HevcEncodeProbePictureInfoMode::Default, 3, 2, 0, 0),
        (HevcEncodeProbePictureInfoMode::IntraI, 2, 2, 0, 0),
        (HevcEncodeProbePictureInfoMode::InterP, 0, 1, 0, 0),
        (HevcEncodeProbePictureInfoMode::Temporal1, 3, 2, 1, 0),
        (HevcEncodeProbePictureInfoMode::Poc1, 0, 1, 0, 1),
    ];
    for (mode, picture, slice, temporal, poc) in expected {
        assert_eq!(hevc_encode_probe_picture_type(mode), picture);
        assert_eq!(hevc_encode_probe_slice_type(mode), slice);
        assert_eq!(hevc_encode_probe_temporal_id(mode), temporal);
        assert_eq!(hevc_encode_probe_pic_order_cnt_val(mode), poc);
    }
}

#[test]
fn slice_qp_delta_out_of_range_is_told() {
    assert_eq!(
        hevc_encode_probe_slice_qp_delta(200, 0).unwrap_err(),
        "slice_qp_delta is out of range for constant_qp=200, pps_init_qp_minus26=0"
    );
    assert_eq!(hevc_encode_probe_slice_qp_delta(153, 0).unwrap(), 127);
    assert_eq!(hevc_encode_probe_slice_qp_delta(-102, 0).unwrap(), -128);
}

#[test]
fn labels_name_their_own_modes() {
    for mode in [
        HevcEncodeParameterMode::Sample,
        HevcEncodeParameterMode::SampleNoAddInfo,
        HevcEncodeParameterMode::SampleSpsLevelOrdering,
        HevcEncodeParameterMode::EmptyTemplate,
    ] {
        let label = hevc_encode_parameter_mode_label(mode);
        assert_eq!(parse_hevc_encode_parameter_mode(Some(label)), mode);
    }
    assert_eq!(
        parse_hevc_encode_parameter_mode(Some("\u{3000}VPS-only\t")),
        HevcEncodeParameterMode::SampleVpsOnly
    );
}

#[test]
fn parameter_sets_are_filtered_and_changed_by_mode() {
    assert_eq!(
        hevc_encode_parameter_mode_add_info_filter(HevcEncodeParameterMode::Sample),
        Some((true, true, true))
    );
    assert_eq!(
        hevc_encode_parameter_mode_add_info_filter(HevcEncodeParameterMode::SampleSpsLevel),
        Some((false, true, false))
    );
    assert_eq!(
        hevc_encode_parameter_mode_add_info_filter(HevcEncodeParameterMode::EmptyTemplate),
        None
    );
    assert_eq!(
        apply_hevc_encode_parameter_mode_std_overrides(HevcEncodeParameterMode::Sample),
        None
    );
    let mut parameters = sample();
    apply_hevc_encode_parameter_mode_sps_overrides(
        &mut parameters,
        HevcEncodeParameterMode::SampleSpsLevelOrdering,
    );
    assert_eq!(parameters.level_idc, Some(63));
    assert_eq!(parameters.max_dec_pic_buffering_minus1, vec![4, 4]);
    assert_eq!(parameters.max_num_reorder_pics, vec![2, 2]);
    assert_eq!(parameters.max_latency_increase_plus1, vec![5, 5]);
    assert!(parameters.has_vui_parameters);
    let mut safe = sample();
    apply_hevc_encode_parameter_mode_sps_overrides(
        &mut safe,
        HevcEncodeParameterMode::SampleSpsSafeFlags,
    );
    assert!(!safe.amp_enabled_flag);
    assert!(safe.sps_temporal_mvp_enabled_flag && safe.strong_intra_smoothing_enabled_flag);
    let mut none = sample();
    apply_hevc_encode_parameter_mode_sps_overrides(
        &mut none,
        HevcEncodeParameterMode::SampleSpsNoRps,
    );
    assert_eq!(none.short_term_ref_pic_set_count, 0);
}

fn request() -> HevcSessionParametersRequest {
    HevcSessionParametersRequest {
        mode: HevcEncodeParameterMode::Sample,
        vui_safety: HevcEncodeVuiSafety::Auto,
        size_mode: HevcEncodeParameterSizeMode::Sample,
        sample_override_enabled: true,
        std_syntax_flags: vk::VideoEncodeH265StdFlagsKHR::SAMPLE_ADAPTIVE_OFFSET_ENABLED_FLAG_SET
            .as_raw(),
        sample_coded_width: 640,
        sample_coded_height: 384,
        coded_width: 320,
        coded_height: 180,
    }
}

#[test]
fn session_parameters_fit_the_device() {
    let mut safe = request();
    safe.mode = HevcEncodeParameterMode::SampleSpsSafeFlags;
    safe.std_syntax_flags = 1;
    let mut predicted = sample();
    predicted.sps_temporal_mvp_enabled_flag = true;
    let plan = plan_hevc_session_parameters(&safe, predicted).unwrap();
    assert!(!plan.parameters.sample_adaptive_offset_enabled_flag);
    assert!(!plan.parameters.sps_temporal_mvp_enabled_flag);
    assert!(plan.parameters.strong_intra_smoothing_enabled_flag);
    let mut without = sample();
    without.sample_adaptive_offset_enabled_flag = false;
    let plan = plan_hevc_session_parameters(&request(), without).unwrap();
    assert!(plan.parameters.sample_adaptive_offset_enabled_flag);
    assert_eq!((plan.coded_width, plan.coded_height), (640, 384));
    let mut sized = request();
    sized.size_mode = HevcEncodeParameterSizeMode::Coded;
    let plan = plan_hevc_session_parameters(&sized, sample()).unwrap();
    assert_eq!((plan.coded_width, plan.coded_height), (320, 180));
}

#[test]
fn vui_safety_decides_what_is_announced() {
    let mut kept = request();
    kept.vui_safety = HevcEncodeVuiSafety::Preserve;
    let plan = plan_hevc_session_parameters(&kept, sample()).unwrap();
    assert_eq!((plan.mode, plan.vui_flag), (HevcEncodeParameterMode::Sample, None));
    let mut off = request();
    off.vui_safety = HevcEncodeVuiSafety::ForceOff;
    off.sample_override_enabled = false;
    let plan = plan_hevc_session_parameters(&off, sample()).unwrap();
    assert_eq!(plan.mode, HevcEncodeParameterMode::SampleSpsVuiFlagOff);
    let mut own = request();
    own.sample_override_enabled = false;
    let plan = plan_hevc_session_parameters(&own, sample()).unwrap();
    assert_eq!(plan.mode, HevcEncodeParameterMode::Sample);
}

#[test]
fn given_sample_with_vui_is_used_without_announcing_it() {
    let plan = plan_hevc_session_parameters(&request(), sample()).unwrap();
    assert_eq!(plan.mode, HevcEncodeParameterMode::SampleSpsVuiFlagOff);
    assert_eq!(plan.vui_flag, Some(false));
    assert_eq!(plan.given, Some((false, true, false)));
    assert_eq!(plan.parameters, sample());
    let mut high = sample();
    high.profile_idc = 2;
    let err = plan_hevc_session_parameters(&request(), high)
        .expect_err("only the Main profile will do");
    assert!(err.contains("profile_idc=2;"));
}

#[test]
fn sample_path_is_trimmed() {
    assert_eq!(hevc_encode_probe_parameter_sample_override_path(None), None);
    assert_eq!(hevc_encode_probe_parameter_sample_override_path(Some("  \n")), None);
    assert_eq!(
        hevc_encode_probe_parameter_sample_override_path(Some(" A b.h265 ")),
        Some("A b.h265".to_string())
    );
}

#[test]
fn validation_messages_keep_the_last_and_show_three() {
    let mut messages = ValidationMessages::new();
    assert_eq!(messages.append_to("e".to_string()), "e");
    for i in 0..20 {
        messages.push(format!("m{i}"));
    }
    assert_eq!(
        messages.append_to("e".to_string()),
        "e; validation_messages=m17 | m18 | m19"
    );
    messages.clear();
    messages.push("one".to_string());
    assert_eq!(messages.append_to("e".to_string()), "e; validation_messages=one");
}

#[test]
fn extensions_are_found_by_name_and_missing_ones_listed() {
    let flags = ExtensionFlags::from_names(&names(&[
        "VK_KHR_video_queue",
        "VK_KHR_video_maintenance1",
    ]));
    assert!(flags.has_video_queue && flags.has_video_maintenance1);
    assert!(!flags.supports_hevc_encode());
    assert_eq!(
        flags.missing_extensions(),
        names(&["VK_KHR_video_encode_queue", "VK_KHR_video_encode_h265"])
    );
}

#[test]
fn probe_outcome_follows_what_was_seen() {
    let all = ExtensionFlags {
        has_video_queue: true,
        has_video_encode_queue: true,
        has_video_encode_h265: true,
        has_video_maintenance1: false,
    };
    let mut probe = HevcEncodeProbe::new();
    assert_eq!(
        probe.finish(),
        HevcEncodePrerequisiteProbe::MissingExtensions {
            missing: names(&[
                "VK_KHR_video_queue",
                "VK_KHR_video_encode_queue",
                "VK_KHR_video_encode_h265"
            ])
        }
    );
    let without_queue = AdapterEncodeSupport { extensions: all, encode_queue_family_index: None };
    assert_eq!(probe.observe(without_queue), None);
    assert_eq!(probe.finish(), HevcEncodePrerequisiteProbe::MissingEncodeQueueFamily);
    let with_queue =
        AdapterEncodeSupport { extensions: all, encode_queue_family_index: Some(7) };
    assert_eq!(probe.observe(with_queue), Some(7));
    assert_eq!(probe.finish(), HevcEncodePrerequisiteProbe::NoCompatibleAdapter);
    probe.fail("first".to_string());
    probe.fail("second".to_string());
    assert_eq!(
        probe.finish(),
        HevcEncodePrerequisiteProbe::DeviceInitializationFailed("first; second".to_string())
    );
}

#[test]
fn candidates_are_tried_by_score() {
    assert_eq!(selection_score(true, true, true), 7);
    assert_eq!(selection_score(false, true, false), 2);
    assert_eq!(order_candidates(&vec![1, 7, 1, 4, 7]), vec![1, 4, 3, 0, 2]);
    let mut candidates = HevcEncodeCandidates::new();
    assert_eq!(
        candidates.choose_best().unwrap_err(),
        "no Vulkan adapter passed HEVC encode bootstrap checks"
    );
    candidates.reject("a".to_string());
    candidates.reject("b".to_string());
    assert_eq!(
        candidates.choose_best().unwrap_err(),
        "HEVC encode bootstrap checks failed on all candidate adapters: a; b"
    );
    candidates.offer(1, 0);
    candidates.offer(5, 1);
    candidates.offer(5, 2);
    assert_eq!(candidates.choose_best(), Ok(1));
}

#[test]
fn extent_outside_the_device_is_told() {
    assert!(capabilities().check_extent(16, 2160).is_ok());
    assert_eq!(
        capabilities().check_extent(8, 720).unwrap_err(),
        "configured coded extent 8x720 is outside device-supported range 16x16..4096x2160"
    );
    assert!(capabilities().input_granularity_aligned(128, 3));
    assert!(!capabilities().input_granularity_aligned(100, 3));
}

#[test]
fn bootstrap_report_holds_what_was_found() {
    let report = report_hevc_encode_bootstrap(
        128,
        64,
        HevcEncodeAdapter {
            name: "gpu".to_string(),
            vendor_id: 1,
            device_id: 2,
            driver_version: 3,
            api_version: 4,
        },
        capabilities(),
        HevcEncodeProbeMaintenance1Mode::Off,
        vec![1],
        vec![],
        HevcSessionOutcome::without_device("no device".to_string()),
    );
    assert_eq!(report.video_maintenance1_mode, "off");
    assert!(!report.video_maintenance1_feature_enabled);
    assert!(report.coded_extent_input_granularity_aligned);
    assert!(matches!(
        report.outcome.session,
        HevcEncodeVideoSessionCreateProbe::Failed(ref e) if e == "no device"
    ));
}

#[test]
fn format_pairs_are_tried_in_order() {
    assert_eq!(
        hevc_encode_format_pairs(&vec![1, 2], &vec![3, 4]),
        vec![(1, 3), (1, 4), (2, 3), (2, 4)]
    );
    assert_eq!(hevc_encode_format_pairs(&vec![1, 2], &vec![]), vec![(1, 1), (1, 2), (2, 1), (2, 2)]);
}

#[test]
fn session_trials_name_the_formats_of_the_bindings() {
    let nv12 = vk::Format::G8_B8R8_2PLANE_420_UNORM.as_raw();
    let rgba = vk::Format::R8G8B8A8_UNORM.as_raw();
    let mut trials = HevcSessionTrials::new();
    assert!(matches!(
        trials.finish().session,
        HevcEncodeVideoSessionCreateProbe::Failed(ref e)
            if e == "vkCreateVideoSessionKHR failed on all candidate format pairs: no encode input formats were reported"
    ));
    assert!(trials
        .note(nv12, rgba, HevcSessionTrial::SessionFailed("bad".to_string()))
        .is_none());
    assert!(matches!(
        trials.finish().session,
        HevcEncodeVideoSessionCreateProbe::Failed(ref e)
            if e == "vkCreateVideoSessionKHR failed on all candidate format pairs: picture=G8_B8R8_2PLANE_420_UNORM, reference=R8G8B8A8_UNORM: bad"
    ));
    assert!(trials
        .note(nv12, nv12, HevcSessionTrial::ParametersFailed("sets".to_string()))
        .is_none());
    let outcome = trials.finish();
    assert!(matches!(outcome.session, HevcEncodeVideoSessionCreateProbe::Created));
    assert!(matches!(
        outcome.parameters,
        HevcEncodeVideoSessionParametersCreateProbe::Failed(ref e)
            if e == "vkCreateVideoSessionParametersKHR failed on all candidate format pairs: picture=G8_B8R8_2PLANE_420_UNORM, reference=G8_B8R8_2PLANE_420_UNORM: sets"
    ));
    let created = trials.note(
        nv12,
        nv12,
        HevcSessionTrial::Created(HevcEncodeSubmitExecutionProbe::Skipped("s".to_string())),
    );
    assert!(matches!(
        created.unwrap().parameters,
        HevcEncodeVideoSessionParametersCreateProbe::Created
    ));
}

#[test]
fn sizes_are_aligned() {
    assert_eq!(align_up(17, 16), 32);
    assert_eq!(align_up(32, 16), 32);
    assert_eq!(align_up(5, 0), 5);
    assert_eq!(align_up(u64::MAX - 1, 16), u64::MAX);
    assert_eq!(hevc_encode_image_extent(&config()), Ok((320, 192)));
    let mut wide = config();
    wide.coded_width = u32::MAX;
    assert_eq!(
        hevc_encode_image_extent(&wide).unwrap_err(),
        "aligned encode source image width exceeds u32 range"
    );
    let mut high = config();
    high.coded_height = u32::MAX;
    assert_eq!(
        hevc_encode_image_extent(&high).unwrap_err(),
        "aligned encode source image height exceeds u32 range"
    );
    assert_eq!(hevc_encode_dst_buffer_range(&config()), 1_048_576);
    let mut large = config();
    large.coded_width = 1920;
    large.coded_height = 1080;
    large.min_bitstream_buffer_size_alignment = 4096;
    assert_eq!(hevc_encode_dst_buffer_range(&large), 8_294_400);
}

#[test]
fn feedback_must_count_bytes() {
    assert!(check_hevc_encode_feedback(2).is_ok());
    assert_eq!(
        check_hevc_encode_feedback(1).unwrap_err(),
        "encode submit feedback does not support BITSTREAM_BYTES_WRITTEN"
    );
    assert_eq!(hevc_encode_feedback_flags(3), 3);
    assert_eq!(hevc_encode_feedback_flags(2), 2);
}

#[test]
fn coding_control_follows_its_mode() {
    let quiet = hevc_encode_coding_control(
        HevcEncodeProbeControlMode::Default,
        Some(RATE_CONTROL_DISABLED),
        false,
        false,
    );
    assert!(quiet.issue && !quiet.sets_rate_control);
    assert_eq!(quiet.flags, vk::VideoCodingControlFlagsKHR::RESET.as_raw());
    let full =
        hevc_encode_coding_control(HevcEncodeProbeControlMode::Ffmpeg, None, true, false);
    assert!(full.sets_rate_control && !full.with_layer && full.with_sequence_structure);
    assert_eq!(
        full.flags,
        (vk::VideoCodingControlFlagsKHR::RESET
            | vk::VideoCodingControlFlagsKHR::ENCODE_RATE_CONTROL
            | vk::VideoCodingControlFlagsKHR::ENCODE_QUALITY_LEVEL)
            .as_raw()
    );
    let trial = hevc_encode_coding_control(
        HevcEncodeProbeControlMode::Default,
        Some(RATE_CONTROL_CBR),
        false,
        true,
    );
    assert!(trial.with_layer && !trial.with_sequence_structure);
    let none =
        hevc_encode_coding_control(HevcEncodeProbeControlMode::NoControl, None, true, false);
    assert!(!none.issue);
}

#[test]
fn submit_plan_follows_config_and_modes() {
    let plan = plan_hevc_encode_submit(&config(), &modes()).unwrap();
    assert_eq!((plan.image_width, plan.image_height), (320, 192));
    assert_eq!(
        (plan.picture_resource_coded_width, plan.picture_resource_coded_height),
        (320, 180)
    );
    assert_eq!(plan.constant_qp, 26);
    assert_eq!(plan.slice_qp_delta, 0);
    assert_eq!(plan.reference_list_entry, 255);
    assert!(plan.is_reference && plan.setup_reference_slot);
    let mut other = modes();
    other.rate_control = HevcEncodeProbeRateControlMode::Cbr;
    other.picture_resource_extent = HevcEncodeProbePictureResourceExtentMode::ImageAligned;
    other.nalu = HevcEncodeProbeNaluMode::Empty;
    let plan = plan_hevc_encode_submit(&config(), &other).unwrap();
    assert_eq!(plan.selected_rate_control_mode, Some(RATE_CONTROL_CBR));
    assert_eq!(plan.slice_qp_delta, -26);
    assert_eq!(plan.picture_resource_coded_height, 192);
    assert_eq!(plan.slice_count, 0);
    let mut far = config();
    far.parameter_set_pps_init_qp_minus26 = -128;
    assert_eq!(
        plan_hevc_encode_submit(&far, &modes()).unwrap_err(),
        "slice_qp_delta is out of range for constant_qp=26, pps_init_qp_minus26=-128 for submit probe"
    );
}

#[test]
fn probe_context_lists_its_inputs() {
    let plan = plan_hevc_encode_submit(&config(), &modes()).unwrap();
    let text = describe_hevc_encode_probe(&config(), &modes(), &plan, &None);
    assert_eq!(
        text,
        "encode_probe_inputs(coded=320x180, image=320x192, picture_resource_coded=320x180, picture_resource_extent_mode=coded, src_picture_resource=320x192, picture_format=G8_B8R8_2PLANE_420_UNORM, reference_picture_format=G8_B8R8_2PLANE_420_UNORM, dst_offset=0, dst_range=1048576, dst_prefix=0, dst_offset_align=1, dst_size_align=256, parameter_mode=sample, parameter_set_ids=vps:1|sps:2|pps:3, parameter_set_coded=320x180, parameter_set_coded_match=true, parameter_set_pps_init_qp_minus26=0, parameter_set_sao=true, parameter_set_temporal_mvp=false, std_syntax_flags=SAMPLE_ADAPTIVE_OFFSET_ENABLED_FLAG_SET, parameter_feedback_probe=none, reference_list_mode=sentinel, reference_idx_mode=minus-one, reference_idx_minus1=255, rps_mode=empty-struct, begin_reference_slot_mode=slot-minus-one, setup_reference_slot_mode=slot-zero, begin_session_parameters_mode=with, control_mode=default, nalu_mode=single-slice, codec_info_mode=with-h265-info, primary_mode=submit, picture_flags_mode=default, picture_info_mode=default, pic_order_cnt_val=0, temporal_id=0, constant_qp=26, slice_qp_delta=0, requested_rate_control_mode=auto, rate_control_mode=DISABLED, max_rate_control_layers=1, quality_level=0, quality_level_control=true, maintenance1_mode=auto, maintenance1_feature_enabled=true, session_dpb_mode=default, session_max_dpb_slots=16, session_max_active_refs=15)"
    );
}

#[test]
fn probe_context_names_the_rate_control() {
    let mut plan = plan_hevc_encode_submit(&config(), &modes()).unwrap();
    for (selected, name) in [
        (None, "none"),
        (Some(2), "CBR"),
        (Some(4), "VBR"),
        (Some(6), "CBR | VBR"),
        (Some(9), "DISABLED | 1000"),
        (Some(0), ""),
    ] {
        plan.selected_rate_control_mode = selected;
        let text = describe_hevc_encode_probe(&config(), &modes(), &plan, &Some("f".to_string()));
        assert!(text.contains(&format!(", rate_control_mode={name}, max_rate_control_layers=")));
        assert!(text.contains(", parameter_feedback_probe=f, "));
    }
}

#[test]
fn begin_slot_may_come_without_codec_info() {
    let mut other = modes();
    for (mode, slot, info) in [
        (HevcEncodeProbeBeginReferenceSlotMode::SlotMinusOne, true, true),
        (HevcEncodeProbeBeginReferenceSlotMode::SlotMinusOneNoCodecInfo, true, false),
        (HevcEncodeProbeBeginReferenceSlotMode::NoSlot, false, false),
    ] {
        other.begin_reference_slot = mode;
        let plan = plan_hevc_encode_submit(&config(), &other).unwrap();
        assert_eq!(plan.begin_with_reference_slot, slot);
        assert_eq!(plan.begin_slot_with_codec_info, info);
    }
}

#[test]
fn submit_plan_follows_parity_settings() {
    let plan = plan_hevc_encode_submit(&config(), &modes()).unwrap();
    assert_eq!((plan.source_coded_width, plan.source_coded_height), (320, 192));
    assert_eq!((plan.dst_buffer_offset, plan.dst_buffer_range), (0, 1_048_576));
    assert_eq!(plan.selected_quality_level, 0);
    assert!(plan.dpb_barrier && plan.ycbcr_views);
    assert!(!plan.begin_with_rate_control && !plan.reference_slots_have_address);
    let mut other = modes();
    other.parity = HevcEncodeParitySettings {
        source_extent: HevcEncodeProbePictureResourceExtentMode::Coded,
        dpb_barrier: HevcEncodeDpbBarrierMode::NoBarrier,
        reference_slot_pointer: HevcEncodeReferenceSlotPointerMode::Ffmpeg,
        begin_next: HevcEncodeBeginNextMode::RateControl,
        dst_range: HevcEncodeDstRangeMode::ReserveAlignment,
        image_view: HevcEncodeImageViewMode::NoYcbcr,
        dst_prefix_bytes: 256,
        constant_qp: Some(18),
        quality_level: Some(3),
    };
    let plan = plan_hevc_encode_submit(&config(), &other).unwrap();
    assert_eq!((plan.source_coded_width, plan.source_coded_height), (320, 180));
    assert_eq!((plan.dst_buffer_offset, plan.dst_buffer_range), (256, 1_048_320));
    assert_eq!(plan.dst_buffer_size, 1_048_832);
    assert_eq!((plan.constant_qp, plan.slice_qp_delta), (18, -8));
    assert_eq!(plan.selected_quality_level, 3);
    assert!(!plan.dpb_barrier && !plan.ycbcr_views);
    assert!(plan.begin_with_rate_control && plan.reference_slots_have_address);
    let text = describe_hevc_encode_probe(&config(), &other, &plan, &None);
    assert!(text.contains(", dst_offset=256, dst_range=1048320, dst_prefix=256, "));
    let trial = plan_hevc_encode_trial(HevcEncodePreEncodeProbeMode::WithEncode, &other, None);
    assert_eq!((trial.constant_qp, trial.slice_qp_delta), (18, -8));
    other.rate_control = HevcEncodeProbeRateControlMode::Cbr;
    assert_eq!(plan_hevc_encode_submit(&config(), &other).unwrap().constant_qp, 0);
    other.rate_control = HevcEncodeProbeRateControlMode::Auto;
    other.parity.constant_qp = Some(52);
    assert_eq!(plan_hevc_encode_submit(&config(), &other).unwrap().constant_qp, 26);
    let mut aligned = config();
    aligned.min_bitstream_buffer_offset_alignment = 512;
    assert_eq!(
        plan_hevc_encode_submit(&aligned, &other).unwrap_err(),
        "encode dst buffer offset 256 is not aligned to 512"
    );
    let mut coarse = config();
    coarse.min_bitstream_buffer_size_alignment = 1_048_576;
    assert_eq!(
        plan_hevc_encode_submit(&coarse, &other).unwrap_err(),
        "encode dst buffer range resolved to zero"
    );
    other.parity.dst_prefix_bytes = u64::MAX;
    assert_eq!(
        plan_hevc_encode_submit(&config(), &other).unwrap_err(),
        "encode dst buffer size overflow"
    );
}

#[test]
fn trial_plan_follows_its_mode() {
    let scope = plan_hevc_encode_trial(HevcEncodePreEncodeProbeMode::ScopeOnly, &modes(), None);
    assert!(!scope.encodes);
    let full = plan_hevc_encode_trial(HevcEncodePreEncodeProbeMode::WithEncode, &modes(), Some(2));
    assert!(full.encodes && full.reference_lists_given && full.setup_reference_slot);
    assert_eq!(full.picture, HevcTrialPicture::Described);
    assert_eq!((full.constant_qp, full.slice_qp_delta), (0, -26));
    let mut bare = modes();
    bare.codec_info = HevcEncodeProbeCodecInfoMode::WithH265InfoNoStdPicture;
    let minimal =
        plan_hevc_encode_trial(HevcEncodePreEncodeProbeMode::WithEncodeMinimal, &bare, None);
    assert!(!minimal.reference_lists_given && !minimal.setup_reference_slot);
    assert_eq!(minimal.picture, HevcTrialPicture::NoDescription);
    assert_eq!(minimal.slice_count, 1);
}

#[test]
fn failures_are_told_with_context() {
    assert_eq!(
        primary_probe_failure(HevcEncodePrimaryProbeMode::PreEncodeMinimal, "e", "c"),
        "pre-encode-minimal primary probe failed: e; c"
    );
    assert_eq!(
        end_recording_failure("e", "c", &Ok(()), &Err("x".to_string()), &Ok(()), &Ok(())),
        "vkEndCommandBuffer failed: e; c; coding_scope_probe=ok; pre_encode_scope_probe=failed (x); pre_encode_probe=ok; pre_encode_minimal_probe=ok"
    );
    assert_eq!(
        trial_end_failure(
            HevcEncodePreEncodeProbeMode::WithEncode,
            HevcEncodeProbePictureInfoMode::Poc1,
            "e"
        ),
        "pre-encode probe (with-encode, picture_info_mode=poc-1, pic_order_cnt_val=1, temporal_id=0) vkEndCommandBuffer failed: e"
    );
}

#[test]
fn outcome_of_a_submit_holds_feedback_or_messages() {
    let feedback = HevcEncodeFeedbackQueryResult { offset: 4, bytes_written: 47, complete: true };
    let mut messages = ValidationMessages::new();
    match finish_hevc_encode_submit(3, Ok(()), feedback, "0a".to_string(), &messages) {
        HevcEncodeSubmitExecutionProbe::Ready { bytes_written, head16, .. } => {
            assert_eq!(bytes_written, 47);
            assert_eq!(head16, "0a");
        }
        other => panic!("unexpected outcome: {other:?}"),
    }
    messages.push("m".to_string());
    match finish_hevc_encode_submit(
        3,
        Err("e".to_string()),
        HevcEncodeFeedbackQueryResult::default(),
        String::new(),
        &messages,
    ) {
        HevcEncodeSubmitExecutionProbe::Failed(text) => {
            assert_eq!(text, "e; validation_messages=m");
        }
        other => panic!("unexpected outcome: {other:?}"),
    }
}

#[test]
fn heads_are_shown_in_hexadecimal() {
    assert_eq!(hevc_encode_head_text(&[0x00, 0x0f, 0xa5]), "000fa5");
    assert_eq!(hevc_encode_head_text(&[0xff; 20]).len(), 32);
    assert_eq!(
        parameter_feedback_summary("SUCCESS", 5, &[1, 2], true, false, true, false),
        "result=SUCCESS, size=2, has_overrides=true, vps_overrides=false, sps_overrides=true, pps_overrides=false, head16=0102"
    );
}
