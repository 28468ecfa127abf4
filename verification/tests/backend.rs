use ash::vk;
use video_hw::av1::status::{
    av1_decode_blocker_message_with_bitstream, Av1DecodeBitstreamSessionProbe, Av1DecodeImagePlan,
};
use video_hw::av1::support::Av1DecodePrerequisiteProbe;
use video_hw::backend::decode::{
    av1_readback_to_nv12_payload, build_av1_frames, build_backend_frames, build_metadata_frames,
    metadata_only_frame, Av1Readback, DecodeRoute, RawFrame, VulkanDecoderAdapter,
};
use video_hw::backend::encode::{
    check_converted_pixels, check_frame_dimensions, collect_hevc_packets, collect_packets,
    encoder_extent, encoder_pts, frame_pixels, target_frame_rate, EncodedFrame, FramePixels,
    VulkanEncoderAdapter,
};
use video_hw::backend::hevc_decode::{
    build_hevc_frames, build_hevc_metadata_decode_info_flags,
    ensure_hevc_non_metadata_probe_coverage, hevc_decode_access_unit_limit,
    hevc_probe_readback_sample_at, hevc_probe_readback_to_argb, next_hevc_decode_step,
    sort_hevc_display_order_frames, HevcAccessUnitHeader, HevcDecodeStep, HevcReadback,
};
use video_hw::backend::select::{
    probe_vulkan_support, select_vulkan_adapter, vulkan_capability_report, VulkanAdapterReport,
};
use video_hw::backend::status::{
    ensure_vk_codec_supported, hevc_decode_blocker_message,
    hevc_decode_blocker_message_with_bitstream, hevc_encode_blocker_message,
    hevc_execution_error,
    HevcDecodeBootstrap, HevcDecodePrerequisiteProbe, HevcParameterSetSizes, HevcStep,
    HevcSubmitExecution, HevcSubmitSkeleton, VulkanOperation, VulkanPrerequisites,
};
use video_hw::backend::time::{decode_pts_step, frame_pts, i64_to_u64, u64_to_i64, usize_to_i64};
use video_hw::config::{
    BackendDecoderOptions, BackendEncoderOptions, DecoderConfig, VulkanDecoderOptions,
    VulkanEncoderOptions,
};
use video_hw::error::{BackendError, BackendErrorKind};
use video_hw::frame::{Frame, Nv12FramePayload};
use video_hw::hevc::session::HevcEncodePrerequisiteProbe;
use video_hw::types::{Codec, DecodeOutputMode};

const HEVC_DECODE_INFO_READBACK_NON_ZERO_FLAG: u32 = 1;
const HEVC_DECODE_INFO_SLOT_SHIFT: u32 = 1;
const HEVC_DECODE_INFO_PROBE_COVERED_FLAG: u32 = 1 << 31;

fn prerequisites() -> VulkanPrerequisites {
    VulkanPrerequisites {
        av1_decode: Av1DecodePrerequisiteProbe::Ready,
        hevc_decode: HevcDecodePrerequisiteProbe::NoCompatibleAdapter,
        hevc_encode: HevcEncodePrerequisiteProbe::MissingExtensions {
            missing: vec!["a".to_string(), "b".to_string()],
        },
    }
}

fn nv12() -> i32 {
    vk::Format::G8_B8R8_2PLANE_420_UNORM.as_raw()
}

#[test]
fn ensure_vk_codec_supported_accepts_h264() {
    ensure_vk_codec_supported(Codec::H264, VulkanOperation::Decode, &prerequisites())
        .expect("H264 should be accepted by Vulkan backend");
    ensure_vk_codec_supported(Codec::H264, VulkanOperation::Encode, &prerequisites())
        .expect("H264 should be accepted by Vulkan backend");
}

#[test]
fn ensure_vk_codec_supported_rejects_hevc_decode_with_actionable_message() {
    let err = ensure_vk_codec_supported(Codec::Hevc, VulkanOperation::Decode, &prerequisites())
        .expect_err("HEVC must be rejected until ash-level path is implemented");
    match err {
        BackendError::UnsupportedConfig(message) => {
            assert!(
                message.contains("Vulkan HEVC decode initialization failed"),
                "expected HEVC decode initialization message: {message}"
            );
        }
        other => panic!("unexpected HEVC check error: {other:?}"),
    }
}

#[test]
fn ensure_vk_codec_supported_rejects_hevc_encode_with_actionable_message() {
    let err = ensure_vk_codec_supported(Codec::Hevc, VulkanOperation::Encode, &prerequisites())
        .expect_err("HEVC encode must be rejected until ash-level path is implemented");
    match err {
        BackendError::UnsupportedConfig(message) => {
            assert!(
                message.contains("Vulkan HEVC encode initialization failed"),
                "expected HEVC encode initialization message: {message}"
            );
            assert!(message.ends_with("; missing Vulkan extensions: a, b"));
        }
        other => panic!("unexpected HEVC check error: {other:?}"),
    }
}

#[test]
fn ensure_vk_codec_supported_rejects_av1_with_actionable_message() {
    for (operation, name) in
        [(VulkanOperation::Decode, "decode"), (VulkanOperation::Encode, "encode")]
    {
        let err = ensure_vk_codec_supported(Codec::Av1, operation, &prerequisites())
            .expect_err("AV1 must be rejected until Vulkan AV1 path is implemented");
        match err {
            BackendError::UnsupportedConfig(message) => {
                assert!(
                    message.contains(&format!("Vulkan AV1 {name} initialization failed")),
                    "expected Vulkan AV1 implementation message: {message}"
                );
            }
            other => panic!("unexpected AV1 check error: {other:?}"),
        }
    }
}

fn av1_bitstream() -> Vec<u8> {
    let sequence_header = obu(1, &sequence_header_payload(320, 180));
    let mut bitstream = obu(2, &[]);
    bitstream.extend_from_slice(&sequence_header);
    bitstream.extend_from_slice(&obu(6, &[0x11, 0x12]));
    bitstream
}

fn image() -> Av1DecodeImagePlan {
    Av1DecodeImagePlan {
        array_layers: 4,
        create_layers: 4,
        usage: vk::ImageUsageFlags::TRANSFER_SRC.as_raw(),
    }
}

#[test]
fn av1_decode_blocker_message_with_bitstream_appends_obu_status() {
    let message = av1_decode_blocker_message_with_bitstream(
        &Av1DecodePrerequisiteProbe::NoCompatibleAdapter,
        &av1_bitstream(),
        &Err("no device".to_string()),
        image(),
    );
    assert!(message.contains("Vulkan AV1 decode initialization failed"));
    assert!(message.contains("parsed AV1 OBUs"));
    assert!(message.contains("sequence_header=true"));
    assert!(message.contains("coded=320x180"), "{message}");
    assert!(message.contains("aligned_upload=ready"));
    assert!(message.contains("first_decode_info=true"));
    assert!(message.contains("decode_info_loop=1"));
    assert!(message.contains("command_sequence=true"));
    assert!(message.contains("record_summary=1/1/1/1"));
    assert!(message.contains("record_summary_valid=true"));
    assert!(message.contains("bitstream_session_parameters=unavailable(no device)"));
    assert!(message.contains("image_usage=TRANSFER_SRC"));
    assert!(message.contains("offset_align=4096, size_align=4096, align_source=fallback"));
    assert!(message.contains("picture_info_skeleton=ready(frame_type=0, frame_header_offset=11, vk_frame_header_offset=11, tile_count=1, tile_bytes=2, reference_slots=7)"));
}

#[test]
fn av1_status_shows_the_session_and_its_format() {
    let session = Av1DecodeBitstreamSessionProbe {
        coded_width: 320,
        coded_height: 180,
        picture_format: nv12(),
        min_bitstream_buffer_offset_alignment: 16,
        min_bitstream_buffer_size_alignment: 8,
        bitstream_upload_bytes: 8,
        decode_image_layers: 4,
        decode_image_barrier_layers: 4,
        readback_bytes: 86_400,
        readback_region_count: 2,
        command_record_decode_count: 1,
        command_buffer_recorded: true,
        command_buffer_submitted: false,
        session_memory_requirement_count: 3,
        session_memory_bound_count: 3,
        session_memory_total_size: 100,
        session_memory_max_alignment: 64,
    };
    let message = av1_decode_blocker_message_with_bitstream(
        &Av1DecodePrerequisiteProbe::Ready,
        &av1_bitstream(),
        &Ok(session),
        image(),
    );
    assert!(message.contains("bitstream_session_parameters=ready(coded=320x180, picture_format=G8_B8R8_2PLANE_420_UNORM, offset_align=16, size_align=8, upload_bytes=8,"));
    assert!(message.contains("align_source=capability, first_offset=0, first_range=8)"));
    let message = av1_decode_blocker_message_with_bitstream(
        &Av1DecodePrerequisiteProbe::Ready,
        &[],
        &Ok(session),
        image(),
    );
    assert!(message.ends_with("; OBU inspection failed: AV1 bitstream contains no OBUs"));
}

#[test]
fn hevc_encode_blocker_message_with_config_surfaces_base_message() {
    let message = hevc_encode_blocker_message(&HevcEncodePrerequisiteProbe::Ready);
    assert!(message.contains("Vulkan HEVC encode initialization failed"));
    assert!(message.ends_with("the direct ash-level HEVC encode submit path is not wired yet"));
}

#[test]
fn hevc_capability_report_never_claims_hardware_acceleration() {
    let report = vulkan_capability_report(Codec::Hevc, true, true);
    assert!(!report.decode_supported);
    assert!(!report.encode_supported);
    assert!(!report.hardware_acceleration);
}

#[test]
fn av1_capability_report_never_claims_hardware_acceleration() {
    let report = vulkan_capability_report(Codec::Av1, true, true);
    assert!(!report.decode_supported);
    assert!(!report.encode_supported);
    assert!(!report.hardware_acceleration);
}

#[test]
fn h264_capability_follows_the_adapters() {
    let report = vulkan_capability_report(Codec::H264, true, false);
    assert!(report.decode_supported && !report.encode_supported && report.hardware_acceleration);
    assert_eq!(
        report.decode_output_modes,
        vec![DecodeOutputMode::Metadata, DecodeOutputMode::Nv12, DecodeOutputMode::Rgb24]
    );
    assert!(vulkan_capability_report(Codec::H264, false, true).decode_output_modes.is_empty());
}

#[test]
fn hevc_decode_blocker_message_with_bitstream_appends_parameter_set_status() {
    let message = hevc_decode_blocker_message_with_bitstream(
        &HevcDecodePrerequisiteProbe::Ready,
        &Err("no parameter sets".to_string()),
        &Err("not tried".to_string()),
    );
    assert!(message.contains("Vulkan HEVC decode initialization failed"));
    assert!(message.contains("parameter-set extraction failed"));
    assert!(message.ends_with("; parameter-set extraction failed: no parameter sets"));
}

#[test]
fn hevc_status_names_the_formats_of_the_bindings() {
    let sets = HevcParameterSetSizes {
        vps_bytes: 1,
        sps_bytes: 2,
        pps_bytes: 3,
        coded_width: 64,
        coded_height: 32,
    };
    let bootstrap = HevcDecodeBootstrap {
        coded_width: 64,
        coded_height: 32,
        min_coded_width: 16,
        min_coded_height: 16,
        max_coded_width: 4096,
        max_coded_height: 4096,
        max_dpb_slots: 16,
        max_active_reference_pictures: 15,
        max_level_idc: 9,
        decode_output_formats: vec![nv12(), vk::Format::R8G8B8A8_UNORM.as_raw()],
        session_create: HevcStep::Done,
        parameters_create: HevcStep::Skipped("s".to_string()),
        submit_skeleton: Ok(HevcSubmitSkeleton {
            vps_id: 0,
            sps_id: 1,
            pps_id: 2,
            vcl_nalu_count: 4,
            first_slice_nal_type: "Some(19)".to_string(),
            first_slice_pps_id: "Some(0)".to_string(),
            first_slice_pic_order_cnt_lsb: "None".to_string(),
            planned_dpb_slots: "[0]".to_string(),
            planned_reference_slots: "[]".to_string(),
        }),
        submit_execution: Ok(HevcSubmitExecution {
            queue_family_index: 1,
            output_format: nv12(),
            coded_width: 64,
            coded_height: 32,
            readback_non_zero: true,
            readback_bytes: 3072,
            readback_planes: 2,
            readback_sample_stride: 3072,
            readback_sample_count: 1,
            readback_sample_len: 3072,
            submitted_access_units: 1,
            experimental_dpb_enabled: true,
            experimental_dpb_mode: "on".to_string(),
            experimental_dpb_status: "Ok".to_string(),
        }),
    };
    let message = hevc_decode_blocker_message_with_bitstream(
        &HevcDecodePrerequisiteProbe::DeviceInitializationFailed("d".to_string()),
        &Ok(sets),
        &Ok(bootstrap),
    );
    assert_eq!(
        message,
        "Vulkan HEVC decode initialization failed; device bootstrap for HEVC decode failed: d; parsed HEVC parameter sets: vps=1 bytes, sps=2 bytes, pps=3 bytes, coded=64x32; session bootstrap probe: coded=64x32, supported=16x16..4096x4096, max_dpb_slots=16, max_active_refs=15, max_level_idc=9, output_formats=[G8_B8R8_2PLANE_420_UNORM, R8G8B8A8_UNORM], video_session_create=created, video_session_parameters_create=skipped (s), decode_submit_skeleton=ready(vps_id=0, sps_id=1, pps_id=2, vcl_nalus=4, first_slice_nal_type=Some(19), first_slice_pps_id=Some(0), first_slice_pic_order_cnt_lsb=None, dpb_slots=[0], ref_slots=[]), decode_submit_execution=ready(queue_family_index=1, output_format=G8_B8R8_2PLANE_420_UNORM, coded=64x32, readback_non_zero=true, readback_bytes=3072, readback_planes=2, readback_sample_stride=3072, readback_sample_count=1, readback_sample_len=3072, submitted_access_units=1, experimental_dpb_enabled=true, experimental_dpb_mode=on, experimental_dpb_status=Ok)"
    );
}

#[test]
fn blocker_messages_tell_every_reason() {
    for (probe, end) in [
        (HevcDecodePrerequisiteProbe::Ready, "HEVC session bootstrap/decode submit failed"),
        (HevcDecodePrerequisiteProbe::MissingDecodeQueueFamily, "with H.265 decode operation"),
        (HevcDecodePrerequisiteProbe::NoCompatibleAdapter, "run HEVC decode end-to-end"),
        (
            HevcDecodePrerequisiteProbe::ProbeUnavailable("p".to_string()),
            "; extension probe failed: p",
        ),
    ] {
        assert!(hevc_decode_blocker_message(&probe).ends_with(end));
    }
}

#[test]
fn hevc_metadata_decode_info_flags_set_probe_and_readback_when_covered() {
    let flags = build_hevc_metadata_decode_info_flags(3, true, true);
    assert_ne!(flags & HEVC_DECODE_INFO_PROBE_COVERED_FLAG, 0);
    assert_eq!(flags & HEVC_DECODE_INFO_READBACK_NON_ZERO_FLAG, 1);
    let slot_mask =
        !(HEVC_DECODE_INFO_PROBE_COVERED_FLAG | HEVC_DECODE_INFO_READBACK_NON_ZERO_FLAG);
    assert_eq!(flags & slot_mask, 3 << HEVC_DECODE_INFO_SLOT_SHIFT);
}

#[test]
fn hevc_metadata_decode_info_flags_clear_probe_and_readback_when_uncovered() {
    let flags = build_hevc_metadata_decode_info_flags(2, false, true);
    assert_eq!(flags & HEVC_DECODE_INFO_PROBE_COVERED_FLAG, 0);
    assert_eq!(flags & HEVC_DECODE_INFO_READBACK_NON_ZERO_FLAG, 0);
    let slot_mask =
        !(HEVC_DECODE_INFO_PROBE_COVERED_FLAG | HEVC_DECODE_INFO_READBACK_NON_ZERO_FLAG);
    assert_eq!(flags & slot_mask, 2 << HEVC_DECODE_INFO_SLOT_SHIFT);
}

#[test]
fn hevc_probe_readback_to_argb_supports_nv12_sample() {
    let readback_sample = vec![16_u8, 16, 16, 16, 128, 128];
    let argb = hevc_probe_readback_to_argb(nv12(), &readback_sample, 2, 2)
        .expect("NV12 readback sample should convert to ARGB");
    assert_eq!(argb.len(), 16);
    assert_eq!(argb[..4], [255, 0, 0, 0]);
}

#[test]
fn hevc_probe_readback_to_argb_rejects_unsupported_format() {
    let err = hevc_probe_readback_to_argb(vk::Format::D32_SFLOAT.as_raw(), &[0_u8; 6], 2, 2)
        .expect_err("unsupported format should fail");
    match err {
        BackendError::UnsupportedConfig(message) => {
            assert!(message.contains("requires G8_B8R8_2PLANE_420_UNORM"));
            assert!(message.ends_with("(got D32_SFLOAT)"));
        }
        other => panic!("unexpected error for unsupported readback format: {other:?}"),
    }
}

#[test]
fn av1_readback_to_nv12_payload_uses_expected_even_extent_size() {
    let payload = av1_readback_to_nv12_payload(&[1, 2, 3, 4, 5, 6], 2, 2)
        .expect("2x2 NV12 readback should map to one payload");
    assert_eq!(payload.pitch, 2);
    assert_eq!(payload.data, vec![1, 2, 3, 4, 5, 6]);
}

#[test]
fn av1_readback_to_nv12_payload_rejects_odd_extent() {
    let err = av1_readback_to_nv12_payload(&[0; 16], 3, 2)
        .expect_err("odd AV1 readback extent should be rejected for facade NV12");
    assert!(matches!(err, BackendError::UnsupportedConfig(_)));
}

#[test]
fn hevc_non_metadata_probe_coverage_requires_full_stream_coverage() {
    let err = ensure_hevc_non_metadata_probe_coverage(false, 303, 16, 6144, 2, 16)
        .expect_err("partial probe coverage should fail for non-metadata mode");
    match err {
        BackendError::UnsupportedConfig(message) => {
            assert!(message.contains("supports up to 16 probe-covered access units"));
            assert!(message.contains("stream has 303"));
        }
        other => panic!("unexpected coverage error: {other:?}"),
    }
}

#[test]
fn hevc_non_metadata_probe_coverage_allows_fully_covered_stream() {
    ensure_hevc_non_metadata_probe_coverage(false, 16, 16, 6144, 2, 16)
        .expect("fully covered stream should pass in non-metadata mode");
}

#[test]
fn hevc_metadata_mode_ignores_probe_coverage_limit() {
    ensure_hevc_non_metadata_probe_coverage(true, 303, 0, 0, 0, 0)
        .expect("metadata mode should not require probe coverage");
}

fn marked(marker: u32) -> Frame {
    let mut frame = metadata_only_frame(2, 2, None);
    frame.decode_info_flags = Some(marker);
    frame
}

#[test]
fn hevc_display_order_sorting_assigns_pts_in_display_order() {
    let frames = sort_hevc_display_order_frames(
        vec![(30, marked(30)), (10, marked(10)), (20, marked(20))],
        9_000,
        3_000,
    );
    let pts_and_markers: Vec<(i64, u32)> = frames
        .into_iter()
        .map(|frame| {
            (
                frame.pts_90k.expect("display-order frames should receive pts"),
                frame.decode_info_flags.expect("test marker should be kept"),
            )
        })
        .collect();
    assert_eq!(pts_and_markers, vec![(9_000, 10), (12_000, 20), (15_000, 30)]);
}

#[test]
fn equal_counts_keep_their_order() {
    let frames = sort_hevc_display_order_frames(
        vec![(1, marked(1)), (0, marked(2)), (1, marked(3)), (0, marked(4))],
        0,
        decode_pts_step(30),
    );
    let markers: Vec<u32> = frames.iter().map(|frame| frame.decode_info_flags.unwrap()).collect();
    assert_eq!(markers, vec![2, 4, 1, 3]);
    assert_eq!(frames[3].pts_90k, Some(9_000));
}

#[test]
fn times_may_run_backwards_and_stay_in_range() {
    let frames = sort_hevc_display_order_frames(
        vec![(-1, marked(1)), (-5, marked(2)), (7, marked(3))],
        i64::MIN + 100,
        -60,
    );
    let shown: Vec<(u32, i64)> = frames
        .iter()
        .map(|frame| (frame.decode_info_flags.unwrap(), frame.pts_90k.unwrap()))
        .collect();
    assert_eq!(shown, vec![(2, i64::MIN + 100), (1, i64::MIN + 40), (3, i64::MIN)]);
    assert_eq!(frame_pts(5, 3, i64::MIN), i64::MIN + 5);
}

#[test]
fn large_pictures_are_refused_before_they_are_converted() {
    let headers = vec![header(0, 19)];
    let mut data = readback();
    data.coded_width = u32::MAX - 1;
    data.coded_height = u32::MAX - 1;
    assert!(build_hevc_frames(&headers, &data, false, 0, 30).is_err());
    let error = hevc_probe_readback_to_argb(nv12(), &[0; 6], usize::MAX - 1, usize::MAX - 1)
        .unwrap_err();
    assert_eq!(
        error.to_string(),
        "unsupported config: Vulkan HEVC readback size overflow while preparing NV12 payload"
    );
}

#[test]
fn decode_order_becomes_display_order() {
    let pocs = [0, 4, 2, 1, 3];
    let items = pocs.iter().map(|poc| (*poc, marked(*poc as u32))).collect();
    let frames = sort_hevc_display_order_frames(items, 0, decode_pts_step(30));
    let shown: Vec<(u32, i64)> = frames
        .iter()
        .map(|frame| (frame.decode_info_flags.unwrap(), frame.pts_90k.unwrap()))
        .collect();
    assert_eq!(shown, vec![(0, 0), (1, 3_000), (2, 6_000), (3, 9_000), (4, 12_000)]);
}

fn header(poc_full: i32, nal_unit_type: u8) -> HevcAccessUnitHeader {
    HevcAccessUnitHeader { poc_full, nal_unit_type }
}

fn readback() -> HevcReadback {
    HevcReadback {
        output_format: nv12(),
        coded_width: 2,
        coded_height: 2,
        max_dpb_slots: 2,
        readback_non_zero: true,
        readback_bytes: 18,
        readback_planes: 2,
        readback_sample_stride: 6,
        readback_sample_count: 3,
        readback_sample: vec![
            16, 16, 16, 16, 128, 128, 235, 235, 235, 235, 128, 128, 81, 81, 81, 81, 90, 240,
        ],
        submitted_access_units: 3,
    }
}

#[test]
fn hevc_frames_carry_slots_pixels_and_times() {
    let headers = vec![header(0, 19), header(8, 1), header(4, 1)];
    let frames = build_hevc_frames(&headers, &readback(), false, 90, 30).unwrap();
    assert_eq!(frames.len(), 3);
    assert!(frames[0].force_keyframe && !frames[1].force_keyframe);
    assert_eq!(frames[0].decode_info_flags, Some(0x8000_0001));
    assert_eq!(frames[1].decode_info_flags, Some(0x8000_0001));
    assert_eq!(frames[2].decode_info_flags, Some(0x8000_0003));
    assert_eq!(frames[2].pts_90k, Some(6_090));
    assert_eq!(frames[0].argb.as_ref().unwrap()[..4], [255, 0, 0, 0]);
    assert_eq!(frames[2].argb.as_ref().unwrap()[..4], [255, 255, 255, 255]);
    assert_eq!(frames[1].argb.as_ref().unwrap()[..4], [255, 255, 0, 0]);
    let bare = build_hevc_frames(&headers, &readback(), true, 0, 0).unwrap();
    assert!(bare.iter().all(|frame| frame.argb.is_none()));
    assert_eq!(bare[1].pts_90k, Some(3_000));
}

#[test]
fn failed_attempts_are_repeated_once() {
    assert_eq!(hevc_decode_access_unit_limit(true, 303), None);
    assert_eq!(hevc_decode_access_unit_limit(false, 303), Some(303));
    assert_eq!(next_hevc_decode_step(1, true), HevcDecodeStep::Proceed);
    assert_eq!(next_hevc_decode_step(1, false), HevcDecodeStep::TryAgain);
    assert_eq!(next_hevc_decode_step(2, true), HevcDecodeStep::Proceed);
    assert_eq!(next_hevc_decode_step(2, false), HevcDecodeStep::GiveUp);
}

#[test]
fn hevc_frames_need_samples() {
    let headers = vec![header(0, 19), header(1, 1)];
    let message = |change: fn(&mut HevcReadback)| {
        let mut data = readback();
        change(&mut data);
        match build_hevc_frames(&headers, &data, false, 0, 30).unwrap_err() {
            BackendError::UnsupportedConfig(message) => message,
            other => panic!("unexpected error: {other:?}"),
        }
    };
    assert_eq!(
        message(|r| r.submitted_access_units = 0),
        "Vulkan HEVC decode submit execution reported submitted_access_units=0"
    );
    assert_eq!(
        message(|r| r.readback_sample_count = 1),
        "Vulkan HEVC non-metadata output readback sample count is too small: got 1, need at least 2; readback_handoff=bytes:18, planes:2, sample_stride:6, submitted_access_units:3"
    );
    assert_eq!(
        message(|r| r.readback_sample_stride = 0),
        "Vulkan HEVC readback sample stride must be greater than zero"
    );
    assert_eq!(
        message(|r| r.readback_sample.truncate(10)),
        "Vulkan HEVC readback sample range out of bounds: index=1, stride=6, total=10"
    );
    assert_eq!(
        message(|r| r.coded_width = 4),
        "Vulkan HEVC readback sample too short for NV12 payload: got 6, need at least 12"
    );
    assert_eq!(
        message(|r| r.coded_height = 3),
        "Vulkan HEVC non-metadata output currently requires even coded extent, got 2x3"
    );
    assert_eq!(hevc_probe_readback_sample_at(&[1, 2, 3, 4], 2, 1).unwrap(), &[3, 4]);
}

#[test]
fn raw_images_become_frames() {
    let raw = |luma: u8| RawFrame { frame: vec![luma, luma, luma, luma, 128, 128], width: 2, height: 2 };
    let frames =
        build_backend_frames(&vec![raw(16), raw(235)], DecodeOutputMode::Rgb24, 5, 25).unwrap();
    assert_eq!(frames[1].pts_90k, Some(3_605));
    assert_eq!(frames[1].argb.as_ref().unwrap()[..4], [255, 255, 255, 255]);
    let short = RawFrame { frame: vec![0; 5], width: 2, height: 2 };
    let err = build_backend_frames(&vec![raw(16), short.clone()], DecodeOutputMode::Nv12, 0, 30)
        .unwrap_err();
    assert_eq!(err.to_string(), "invalid input: nv12 data is smaller than expected");
    assert!(build_backend_frames(&vec![short], DecodeOutputMode::Metadata, 0, 30).is_ok());
}

#[test]
fn sizes_become_metadata_frames() {
    let frames = build_metadata_frames(&vec![(4, 2), (8, 6)], i64::MAX - 100, 60);
    assert_eq!(frames.len(), 2);
    assert_eq!((frames[0].width, frames[0].height), (4, 2));
    assert_eq!(frames[0].pts_90k, Some(i64::MAX - 100));
    assert_eq!((frames[1].width, frames[1].height), (8, 6));
    assert_eq!(frames[1].pts_90k, Some(i64::MAX));
    assert!(frames[1].argb.is_none() && !frames[1].force_keyframe);
}

#[test]
fn steps_that_did_not_end_are_errors() {
    assert!(hevc_execution_error(&HevcStep::Done, "b").is_none());
    assert_eq!(
        hevc_execution_error(&HevcStep::Failed("f".to_string()), "b").unwrap().to_string(),
        "unsupported config: Vulkan HEVC decode submit execution failed: f; b"
    );
    assert_eq!(
        hevc_execution_error(&HevcStep::Skipped("s".to_string()), "b").unwrap().to_string(),
        "unsupported config: Vulkan HEVC decode submit execution was skipped: s; b"
    );
}

#[test]
fn av1_frames_follow_what_was_read_back() {
    let picture = || Av1Readback {
        coded_width: 2,
        coded_height: 2,
        readback_non_zero: true,
        data: vec![1, 2, 3, 4, 5, 6, 7],
    };
    let frames =
        build_av1_frames(&vec![picture(), picture()], 1, DecodeOutputMode::Nv12, 7, 30, "b")
            .unwrap();
    assert_eq!(frames.len(), 1);
    assert_eq!(frames[0].pixel_format, Some(u32::from_le_bytes(*b"NV12")));
    assert_eq!(frames[0].nv12.as_ref().unwrap().data, vec![1, 2, 3, 4, 5, 6]);
    assert!(frames[0].force_keyframe);
    assert_eq!(frames[0].pts_90k, Some(7));
    let bare =
        build_av1_frames(&vec![picture()], 1, DecodeOutputMode::Metadata, 7, 30, "b").unwrap();
    assert!(bare[0].nv12.is_none() && bare[0].decode_info_flags == Some(1));
    assert_eq!(
        build_av1_frames(&vec![picture()], 2, DecodeOutputMode::Nv12, 7, 30, "b")
            .unwrap_err()
            .to_string(),
        "unsupported config: Vulkan AV1 decode readback frame count is too small: got 1, need 2; b"
    );
    assert!(build_av1_frames(&vec![], 0, DecodeOutputMode::Nv12, 7, 30, "b").unwrap().is_empty());
}

#[test]
fn times_are_counted_and_held_in_range() {
    assert_eq!(decode_pts_step(0), 3_000);
    assert_eq!(decode_pts_step(30), 3_000);
    assert_eq!(decode_pts_step(60), 1_500);
    assert_eq!(decode_pts_step(100_000), 0);
    assert_eq!(frame_pts(10, 3, 3_000), 9_010);
    assert_eq!(frame_pts(i64::MAX, 1, 1), i64::MAX);
    assert_eq!(usize_to_i64(5), 5);
    assert_eq!(i64_to_u64(-1), None);
    assert_eq!(u64_to_i64(u64::MAX), None);
    assert_eq!(i64_to_u64(9).and_then(u64_to_i64), Some(9));
}

fn decoder(codec: Codec, options: VulkanDecoderOptions) -> VulkanDecoderAdapter {
    let mut config = DecoderConfig::new(codec, 30, false);
    config.backend_options = BackendDecoderOptions::Vulkan(options);
    VulkanDecoderAdapter::new(config)
}

#[test]
fn failed_decode_changes_nothing() {
    let mut adapter = decoder(Codec::H264, VulkanDecoderOptions::default());
    assert_eq!(adapter.take_pending(), None);
    adapter.push_bitstream_chunk(&[1, 2], Some(900));
    adapter.push_bitstream_chunk(&[3], Some(5));
    let taken = adapter.take_pending().unwrap();
    assert_eq!(taken, vec![1, 2, 3]);
    let error = BackendError::DeviceLost("gone".to_string());
    assert!(adapter.finish_flush(taken, Err(error)).is_err());
    assert_eq!(adapter.next_pts_90k(), 900);
    assert_eq!(adapter.decode_summary().decoded_frames, 0);
    let taken = adapter.take_pending().unwrap();
    assert_eq!(taken, vec![1, 2, 3]);
    let frames = vec![metadata_only_frame(4, 2, None), metadata_only_frame(6, 8, None)];
    assert_eq!(adapter.finish_flush(taken, Ok(frames)).unwrap().len(), 2);
    assert_eq!(adapter.next_pts_90k(), 6_900);
    let summary = adapter.decode_summary();
    assert_eq!((summary.decoded_frames, summary.width, summary.height), (2, Some(6), Some(8)));
    assert_eq!(adapter.take_pending(), None);
}

#[test]
fn decoder_routes_and_explains() {
    assert_eq!(decoder(Codec::Hevc, VulkanDecoderOptions::default()).route(), DecodeRoute::Hevc);
    assert_eq!(decoder(Codec::Av1, VulkanDecoderOptions::default()).route(), DecodeRoute::Av1);
    let adapter = decoder(
        Codec::H264,
        VulkanDecoderOptions { allow_software_fallback: Some(false), adapter_index: Some(2) },
    );
    assert_eq!(adapter.route(), DecodeRoute::H264Metadata);
    assert_eq!(adapter.adapter_index(), Some(2));
    let error = adapter.setup_error(BackendError::Backend("x".to_string()));
    assert_eq!(error.to_string(), "backend error: x");
    let adapter = decoder(Codec::H264, VulkanDecoderOptions::default());
    let error = adapter.setup_error(BackendError::Backend("x".to_string()));
    assert_eq!(
        error.to_string(),
        "unsupported config: backend error: x; software fallback is not available in direct Vulkan backend"
    );
}

#[test]
fn failed_encode_changes_nothing() {
    let mut adapter = VulkanEncoderAdapter::with_config(
        Codec::H264,
        30,
        true,
        BackendEncoderOptions::Vulkan(VulkanEncoderOptions {
            allow_software_fallback: None,
            adapter_index: Some(1),
        }),
    );
    assert_eq!(adapter.adapter_index(), Some(1));
    assert!(adapter.stream_size().is_err());
    adapter.push_frame(metadata_only_frame(4, 2, Some(0)));
    adapter.push_frame(metadata_only_frame(8, 8, Some(1)));
    assert_eq!(adapter.stream_size().unwrap(), (4, 2));
    let taken = adapter.take_pending().unwrap();
    assert_eq!(taken.len(), 2);
    assert!(adapter.finish_flush(taken, Err(BackendError::Backend("x".to_string()))).is_err());
    let taken = adapter.take_pending().unwrap();
    assert_eq!(taken.len(), 2);
    assert!(adapter.finish_flush(taken, Ok(vec![])).is_ok());
    assert!(adapter.take_pending().is_none());
    let error = adapter.setup_error(BackendError::Backend("x".to_string()));
    assert_eq!(error.kind(), BackendErrorKind::Backend);
}

#[test]
fn frames_give_their_pixels() {
    let mut frame = metadata_only_frame(4, 2, None);
    assert_eq!(
        check_frame_dimensions(&frame, 4, 4).unwrap_err().to_string(),
        "invalid input: mixed frame dimensions are unsupported: expected 4x4, got 4x2"
    );
    assert_eq!(
        frame_pixels(&frame, 4, 2, true).unwrap_err().to_string(),
        "invalid input: Vulkan encode requires ARGB input payload"
    );
    frame.argb = Some(vec![9]);
    frame.nv12 = Some(Nv12FramePayload { pitch: 2, data: vec![1] });
    assert!(matches!(frame_pixels(&frame, 4, 2, false), Ok(FramePixels::Argb(ref d)) if d == &[9]));
    assert_eq!(
        frame_pixels(&frame, 4, 2, true).unwrap_err().to_string(),
        "invalid input: NV12 pitch must be >= frame width"
    );
    frame.nv12 = Some(Nv12FramePayload { pitch: 4, data: vec![1] });
    assert!(matches!(frame_pixels(&frame, 4, 2, true), Ok(FramePixels::Nv12(ref d)) if d == &[1]));
    assert_eq!(
        check_converted_pixels(5, 4, 2).unwrap_err().to_string(),
        "invalid input: NV12 pitch mismatch: expected 4, got 5"
    );
    assert_eq!(check_converted_pixels(4, 4, 2).unwrap(), (4, 2));
}

#[test]
fn encoder_settings_are_checked() {
    assert_eq!(encoder_extent(4, 2).unwrap(), (4, 2));
    assert_eq!(
        encoder_extent(0, 2).unwrap_err().to_string(),
        "invalid input: frame width must be > 0"
    );
    assert_eq!(
        encoder_extent(1, 0).unwrap_err().to_string(),
        "invalid input: frame height must be > 0"
    );
    assert_eq!(
        encoder_extent(1 << 33, 2).unwrap_err().to_string(),
        "invalid input: frame width does not fit in u32"
    );
    assert_eq!(
        encoder_extent(2, 1 << 33).unwrap_err().to_string(),
        "invalid input: frame height does not fit in u32"
    );
    assert_eq!(target_frame_rate(-3), 1);
    assert_eq!(target_frame_rate(60), 60);
    assert_eq!(encoder_pts(Some(-1)), None);
    assert_eq!(encoder_pts(Some(4)), Some(4));
}

#[test]
fn packets_leave_out_empty_data() {
    let encoded = |data: Vec<u8>, pts: Option<u64>| EncodedFrame { data, pts, is_keyframe: true };
    let packets = collect_packets(
        Codec::H264,
        &vec![
            encoded(vec![], Some(1)),
            encoded(vec![1], Some(2)),
            encoded(vec![2], Some(u64::MAX)),
        ],
    )
    .unwrap();
    assert_eq!(packets.len(), 2);
    assert_eq!((packets[0].data.clone(), packets[0].pts_90k), (vec![1], Some(2)));
    assert_eq!(packets[1].pts_90k, None);
    assert_eq!(
        collect_packets(Codec::H264, &vec![encoded(vec![], None)]).unwrap_err().to_string(),
        "backend error: Vulkan encoder produced no output packets"
    );
    let packets =
        collect_hevc_packets(Codec::Hevc, &vec![vec![1], vec![2]], &vec![Some(7)]).unwrap();
    assert_eq!(packets.len(), 1);
    assert!(packets[0].is_keyframe && packets[0].pts_90k == Some(7));
    assert_eq!(
        collect_hevc_packets(Codec::Hevc, &vec![], &vec![]).unwrap_err().to_string(),
        "backend error: Vulkan HEVC encoder produced no output packets"
    );
}

fn adapter(name: &str, decode: bool, encode: bool) -> VulkanAdapterReport {
    VulkanAdapterReport {
        index: 0,
        name: name.to_string(),
        vendor_id: 1,
        device_id: 2,
        supports_decoding: decode,
        supports_encoding: encode,
    }
}

#[test]
fn adapters_are_chosen_by_what_they_do() {
    let list = vec![adapter("a", false, true), adapter("b", true, false)];
    assert_eq!(select_vulkan_adapter(&list, true, false, None).unwrap(), 1);
    assert_eq!(select_vulkan_adapter(&list, false, true, Some(0)).unwrap(), 0);
    let text = |decode, encode, index| {
        select_vulkan_adapter(&list, decode, encode, index).unwrap_err().to_string()
    };
    assert_eq!(
        text(true, true, None),
        "unsupported config: no Vulkan adapter supports both decode and encode for direct backend"
    );
    assert_eq!(
        text(true, false, Some(0)),
        "unsupported config: Vulkan adapter index 0 (a) does not support decode"
    );
    assert_eq!(
        text(false, true, Some(1)),
        "unsupported config: Vulkan adapter index 1 (b) does not support encode"
    );
    assert_eq!(
        text(false, false, Some(2)),
        "unsupported config: Vulkan adapter index 2 is not available"
    );
    for (decode, encode, end) in [
        (true, false, "no Vulkan adapter supports decode for direct backend"),
        (false, true, "no Vulkan adapter supports encode for direct backend"),
        (false, false, "no Vulkan adapter is available for direct backend"),
    ] {
        let error = select_vulkan_adapter(&vec![], decode, encode, None).unwrap_err();
        assert!(error.to_string().ends_with(end));
    }
    assert_eq!(probe_vulkan_support(&list), (true, true));
    assert_eq!(probe_vulkan_support(&vec![]), (false, false));
}

fn obu(obu_type: u8, payload: &[u8]) -> Vec<u8> {
    let mut out = vec![(obu_type << 3) | 0x02];
    out.extend(leb128(payload.len()));
    out.extend_from_slice(payload);
    out
}

fn leb128(mut value: usize) -> Vec<u8> {
    let mut out = Vec::new();
    loop {
        let mut byte = (value & 0x7f) as u8;
        value >>= 7;
        if value != 0 {
            byte |= 0x80;
        }
        out.push(byte);
        if value == 0 {
            break;
        }
    }
    out
}

fn sequence_header_payload(width: u32, height: u32) -> Vec<u8> {
    let width_minus_1 = width.checked_sub(1).expect("width must be positive");
    let height_minus_1 = height.checked_sub(1).expect("height must be positive");
    let width_bits = 32 - width_minus_1.leading_zeros();
    let height_bits = 32 - height_minus_1.leading_zeros();
    let mut writer = BitWriter::default();
    writer.write_bits(0, 3);
    writer.write_bits(1, 1);
    writer.write_bits(1, 1);
    writer.write_bits(0, 5);
    writer.write_bits(u64::from(width_bits - 1), 4);
    writer.write_bits(u64::from(height_bits - 1), 4);
    writer.write_bits(u64::from(width_minus_1), width_bits as usize);
    writer.write_bits(u64::from(height_minus_1), height_bits as usize);
    writer.write_bits(0, 1);
    writer.write_bits(0, 1);
    writer.write_bits(0, 1);
    writer.finish()
}

#[derive(Default)]
struct BitWriter {
    data: Vec<u8>,
    bit_offset: usize,
}

impl BitWriter {
    fn write_bits(&mut self, value: u64, count: usize) {
        for shift in (0..count).rev() {
            if self.bit_offset % 8 == 0 {
                self.data.push(0);
            }
            let bit = ((value >> shift) & 1) as u8;
            let byte = self.data.last_mut().expect("byte exists after push");
            *byte |= bit << (7 - (self.bit_offset % 8));
            self.bit_offset += 1;
        }
    }

    fn finish(self) -> Vec<u8> {
        self.data
    }
}
