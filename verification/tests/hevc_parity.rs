use video_hw::hevc::modes::HevcEncodeProbePictureResourceExtentMode;
use video_hw::hevc::parity::{
    hevc_encode_begin_next_mode_label, hevc_encode_dpb_barrier_mode_label, hevc_encode_dst_prefix,
    hevc_encode_dst_prefix_mode_label, hevc_encode_dst_range_mode_label,
    hevc_encode_image_view_mode_label, hevc_encode_parameter_size_mode_label,
    hevc_encode_reference_slot_pointer_mode_label, hevc_encode_session_create_info_mode_label,
    hevc_encode_vui_safety_label, parse_hevc_encode_begin_next_mode,
    parse_hevc_encode_dpb_barrier_mode, parse_hevc_encode_dst_prefix_mode,
    parse_hevc_encode_dst_range_mode, parse_hevc_encode_image_view_mode,
    parse_hevc_encode_parameter_size_mode, parse_hevc_encode_reference_slot_pointer_mode,
    parse_hevc_encode_session_create_info_mode, parse_hevc_encode_source_extent_mode,
    parse_hevc_encode_vui_safety, HevcEncodeBeginNextMode, HevcEncodeDpbBarrierMode,
    HevcEncodeDstPrefixMode, HevcEncodeDstRangeMode, HevcEncodeImageViewMode,
    HevcEncodeParameterSizeMode, HevcEncodeReferenceSlotPointerMode,
    HevcEncodeSessionCreateInfoMode, HevcEncodeVuiSafety,
};

#[test]
fn settings_are_read_back_from_their_labels() {
    for label in ["auto", "preserve", "force-off"] {
        let mode = parse_hevc_encode_vui_safety(Some(label));
        assert_eq!(hevc_encode_vui_safety_label(mode), label);
    }
    for label in ["with", "none"] {
        let mode = parse_hevc_encode_dpb_barrier_mode(Some(label));
        assert_eq!(hevc_encode_dpb_barrier_mode_label(mode), label);
    }
    for label in ["empty-slice", "ffmpeg"] {
        let mode = parse_hevc_encode_reference_slot_pointer_mode(Some(label));
        assert_eq!(hevc_encode_reference_slot_pointer_mode_label(mode), label);
    }
    for label in ["with-max-level", "without"] {
        let mode = parse_hevc_encode_session_create_info_mode(Some(label));
        assert_eq!(hevc_encode_session_create_info_mode_label(mode), label);
    }
    for label in ["none", "rate-control"] {
        let mode = parse_hevc_encode_begin_next_mode(Some(label));
        assert_eq!(hevc_encode_begin_next_mode_label(mode), label);
    }
    for label in ["full", "ffmpeg-reserve-align"] {
        let mode = parse_hevc_encode_dst_range_mode(Some(label));
        assert_eq!(hevc_encode_dst_range_mode_label(mode), label);
    }
    for label in ["sample", "coded"] {
        let mode = parse_hevc_encode_parameter_size_mode(Some(label));
        assert_eq!(hevc_encode_parameter_size_mode_label(mode), label);
    }
    for label in ["ycbcr-conversion", "no-ycbcr"] {
        let mode = parse_hevc_encode_image_view_mode(Some(label));
        assert_eq!(hevc_encode_image_view_mode_label(mode), label);
    }
    for label in ["none", "zero", "parameter-sample"] {
        let mode = parse_hevc_encode_dst_prefix_mode(Some(label));
        assert_eq!(hevc_encode_dst_prefix_mode_label(mode), label);
    }
}

#[test]
fn settings_have_defaults_and_a_common_alias() {
    assert_eq!(parse_hevc_encode_vui_safety(None), HevcEncodeVuiSafety::Auto);
    assert_eq!(parse_hevc_encode_vui_safety(Some(" ? ")), HevcEncodeVuiSafety::Auto);
    assert_eq!(parse_hevc_encode_dpb_barrier_mode(None), HevcEncodeDpbBarrierMode::With);
    assert_eq!(
        parse_hevc_encode_reference_slot_pointer_mode(None),
        HevcEncodeReferenceSlotPointerMode::EmptySlice
    );
    assert_eq!(
        parse_hevc_encode_session_create_info_mode(None),
        HevcEncodeSessionCreateInfoMode::WithMaxLevel
    );
    assert_eq!(
        parse_hevc_encode_image_view_mode(None),
        HevcEncodeImageViewMode::YcbcrConversion
    );
    assert_eq!(
        parse_hevc_encode_begin_next_mode(Some("FFmpeg")),
        HevcEncodeBeginNextMode::RateControl
    );
    assert_eq!(
        parse_hevc_encode_dst_range_mode(Some("ffmpeg")),
        HevcEncodeDstRangeMode::ReserveAlignment
    );
    assert_eq!(
        parse_hevc_encode_parameter_size_mode(Some("ffmpeg")),
        HevcEncodeParameterSizeMode::Coded
    );
    assert_eq!(
        parse_hevc_encode_dst_prefix_mode(Some("ffmpeg")),
        HevcEncodeDstPrefixMode::ParameterSample
    );
    assert_eq!(
        parse_hevc_encode_source_extent_mode(None),
        HevcEncodeProbePictureResourceExtentMode::ImageAligned
    );
    assert_eq!(
        parse_hevc_encode_source_extent_mode(Some("image-aligned")),
        HevcEncodeProbePictureResourceExtentMode::ImageAligned
    );
    assert_eq!(
        parse_hevc_encode_source_extent_mode(Some(" Coded")),
        HevcEncodeProbePictureResourceExtentMode::Coded
    );
}

#[test]
fn prefix_is_filled_as_set() {
    let sample = [7, 8, 9];
    assert_eq!(hevc_encode_dst_prefix(HevcEncodeDstPrefixMode::Untouched, 2, &sample), None);
    assert_eq!(
        hevc_encode_dst_prefix(HevcEncodeDstPrefixMode::Zero, 2, &sample),
        Some(vec![0, 0])
    );
    assert_eq!(
        hevc_encode_dst_prefix(HevcEncodeDstPrefixMode::ParameterSample, 2, &sample),
        Some(vec![7, 8])
    );
    assert_eq!(
        hevc_encode_dst_prefix(HevcEncodeDstPrefixMode::ParameterSample, 5, &sample),
        Some(vec![7, 8, 9, 0, 0])
    );
}
