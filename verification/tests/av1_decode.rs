use ash::vk;
use std::ops::Range;
use video_hw::av1::command::{
    build_av1_aligned_key_frame_decode_command_skeleton,
    build_av1_key_frame_decode_command_skeleton, Av1BeginCodingSlotSkeleton,
    Av1DecodeCommandSkeleton, Av1DecodeFrameCommandSkeleton, Av1DecodeFrameRecordBundle,
    Av1DecodeFrameSubmitBundle, Av1DecodeRecordStep,
};
use video_hw::av1::decode::{
    av1_decode_source_range, build_av1_decode_info_skeleton, build_av1_decode_info_skeletons,
    build_av1_decode_picture_info_skeleton, key_frame_std_picture_info,
    rebase_av1_picture_info_offsets, Av1DecodePictureInfoSkeleton, AV1_FRAME_TYPE_KEY,
    AV1_INTERPOLATION_FILTER_SWITCHABLE, AV1_TX_MODE_SELECT,
};
use video_hw::av1::fields::FieldReader;
use video_hw::av1::obu::{parse_av1_low_overhead_obus, read_av1_leb128, Av1ObuType};
use video_hw::av1::plan::{
    align_up_av1_decode_value, build_av1_aligned_decode_bitstream_upload_plan, upload_plan_fits,
};
use video_hw::av1::sequence::parse_av1_sequence_header_payload;
use video_hw::av1::skeleton::{
    build_av1_decode_submit_skeleton, build_av1_decode_submit_skeletons,
    build_av1_std_sequence_header, checked_tile_bytes, extract_av1_std_sequence_header, inspect_av1_low_overhead_obus,
    Av1DecodeSubmitSkeleton,
};
use video_hw::av1::status::av1_tiles_countable;
use video_hw::av1::submit::{Av1DecodeCommandRecordSummary, Av1DecodeCommandVisit};
use video_hw::av1::support::{
    build_probe_av1_std_sequence_header, preferred_av1_probe_extent, select_av1_bitstream_output,
    session_probe_failure_text, summarize_session_memory,
    validate_av1_decode_capability_snapshot, Av1AdapterDecodeSupport, Av1DecodeCapabilitySnapshot,
    Av1DecodeExtensionFlags, Av1DecodePrerequisiteProbe, Av1DecodeProbe, MemoryRequirement,
};
use video_hw::vulkan::{
    find_video_codec_queue_family_index, select_device_memory, select_host_memory,
    select_memory_type_index, select_session_memory, validation_message, QueueFamily, FORMAT_NV12,
};

#[test]
fn extension_flags_require_all_av1_decode_extensions() {
    let mut flags = Av1DecodeExtensionFlags::default();
    assert!(!flags.supports_av1_decode());
    flags.has_video_queue = true;
    assert!(!flags.supports_av1_decode());
    flags.has_video_decode_queue = true;
    assert!(!flags.supports_av1_decode());
    flags.has_video_decode_av1 = true;
    assert!(flags.supports_av1_decode());
}

#[test]
fn preferred_probe_extent_stays_inside_capability_range() {
    assert_eq!(preferred_av1_probe_extent(1, 64), 16);
    assert_eq!(preferred_av1_probe_extent(32, 64), 32);
    assert_eq!(preferred_av1_probe_extent(1, 8), 8);
}

#[test]
fn low_overhead_obu_parser_extracts_sequence_header_and_frames() {
    let bitstream = [
        make_obu(2, &[]),
        make_obu(1, &av1_reduced_still_sequence_header_payload(320, 180)),
        make_obu(6, &[0x04, 0x05]),
    ]
    .concat();

    let inspection =
        inspect_av1_low_overhead_obus(&bitstream).expect("synthetic AV1 OBUs should parse");
    assert_eq!(inspection.obu_count, 3);
    assert_eq!(inspection.temporal_unit_count, 1);
    assert!(inspection.has_sequence_header);
    assert!(inspection.has_frame_payload);
    assert_eq!(inspection.coded_width, Some(320));
    assert_eq!(inspection.coded_height, Some(180));
}

#[test]
fn low_overhead_obu_parser_splits_temporal_units() {
    let bitstream = [
        make_obu(1, &av1_reduced_still_sequence_header_payload(320, 180)),
        make_obu(6, &[0x02]),
        make_obu(2, &[]),
        make_obu(6, &[0x03]),
    ]
    .concat();

    let inspection =
        inspect_av1_low_overhead_obus(&bitstream).expect("synthetic AV1 OBUs should parse");
    assert_eq!(inspection.obu_count, 4);
    assert_eq!(inspection.temporal_unit_count, 2);
}

#[test]
fn low_overhead_obu_parser_rejects_missing_size_field() {
    let err =
        inspect_av1_low_overhead_obus(&[1 << 3]).expect_err("size-less OBU should be rejected");
    assert!(err.contains("lacks the low-overhead size field"));
}

#[test]
fn low_overhead_obu_parser_rejects_ivf_container_bytes() {
    let err = inspect_av1_low_overhead_obus(b"DKIF\0\0\0\0")
        .expect_err("IVF container bytes should be rejected explicitly");
    assert!(err.contains("IVF container input"));
}

#[test]
fn low_overhead_obu_parser_rejects_truncated_leb128() {
    let err = inspect_av1_low_overhead_obus(&[(1 << 3) | 0x02, 0x80])
        .expect_err("truncated LEB128 should be rejected");
    assert!(err.contains("truncated LEB128"));
}

#[test]
fn low_overhead_obu_parser_rejects_truncated_payload() {
    let err = inspect_av1_low_overhead_obus(&[(1 << 3) | 0x02, 3, 0xab])
        .expect_err("truncated payload should be rejected");
    assert!(err.contains("is truncated"));
}

#[test]
fn sequence_header_parser_reads_reduced_still_picture_dimensions() {
    let payload = av1_reduced_still_sequence_header_payload(640, 360);
    let parsed = parse_av1_sequence_header_payload(&payload)
        .expect("synthetic reduced-still sequence header should parse");

    assert_eq!(parsed.seq_profile, 0);
    assert!(parsed.still_picture);
    assert!(parsed.reduced_still_picture_header);
    assert_eq!(parsed.coded_width(), 640);
    assert_eq!(parsed.coded_height(), 360);
    assert_eq!(parsed.frame_width_bits_minus_1, 9);
    assert_eq!(parsed.frame_height_bits_minus_1, 8);
}

#[test]
fn bitstream_sequence_header_extractor_returns_vulkan_std_header() {
    let sequence_header = make_obu(1, &av1_reduced_still_sequence_header_payload(320, 180));
    let mut bitstream = make_obu(2, &[]);
    bitstream.extend_from_slice(&sequence_header);
    bitstream.extend_from_slice(&make_obu(6, &[0x80]));

    let std_header = extract_av1_std_sequence_header(&bitstream)
        .expect("synthetic AV1 bitstream should yield a Vulkan std sequence header");

    assert_eq!(std_header.max_frame_width_minus_1, 319);
    assert_eq!(std_header.max_frame_height_minus_1, 179);
}

#[test]
fn bitstream_sequence_header_extractor_rejects_missing_sequence_header() {
    let bitstream = make_obu(6, &[0x80]);
    let err = extract_av1_std_sequence_header(&bitstream)
        .expect_err("missing AV1 sequence header should be rejected");
    assert!(err.contains("missing AV1 sequence header"));
}

#[test]
fn decode_info_skeleton_rejects_sequence_header_after_first_frame() {
    let mut bitstream = make_obu(6, &[0xaa, 0xbb]);
    bitstream.extend_from_slice(&make_obu(
        1,
        &av1_reduced_still_sequence_header_payload(320, 180),
    ));

    let err = build_av1_decode_info_skeleton(&bitstream)
        .expect_err("sequence header after first frame should be rejected");

    assert!(err.contains("sequence header OBU appears after the first frame"));
}

#[test]
fn decode_submit_skeleton_maps_frame_obu_payload() {
    let mut bitstream = make_obu(2, &[]);
    bitstream.extend_from_slice(&make_obu(
        1,
        &av1_reduced_still_sequence_header_payload(320, 180),
    ));
    let frame_obu_start = bitstream.len();
    bitstream.extend_from_slice(&make_obu(6, &[0xaa, 0xbb, 0xcc]));

    let skeleton = build_av1_decode_submit_skeleton(&bitstream)
        .expect("frame OBU should produce a submit skeleton");

    assert_eq!(skeleton.temporal_unit_index, 0);
    assert_eq!(skeleton.frame_header_offset as usize, frame_obu_start + 2);
    assert_eq!(skeleton.tile_offsets, vec![skeleton.frame_header_offset]);
    assert_eq!(skeleton.tile_sizes, vec![3]);
}

#[test]
fn decode_submit_skeleton_maps_frame_header_and_tile_group_obus() {
    let mut bitstream = make_obu(1, &av1_reduced_still_sequence_header_payload(320, 180));
    let frame_header_obu_start = bitstream.len();
    bitstream.extend_from_slice(&make_obu(3, &[0x10, 0x11]));
    let tile_group_obu_start = bitstream.len();
    bitstream.extend_from_slice(&make_obu(4, &[0x20, 0x21, 0x22]));

    let skeleton = build_av1_decode_submit_skeleton(&bitstream)
        .expect("frame-header + tile-group OBUs should produce a submit skeleton");

    assert_eq!(skeleton.temporal_unit_index, 0);
    assert_eq!(
        skeleton.frame_header_offset as usize,
        frame_header_obu_start + 2
    );
    assert_eq!(
        skeleton.tile_offsets,
        vec![(tile_group_obu_start + 2) as u32]
    );
    assert_eq!(skeleton.tile_sizes, vec![3]);
}

#[test]
fn decode_submit_skeleton_groups_multiple_tile_group_obus() {
    let mut bitstream = make_obu(1, &av1_reduced_still_sequence_header_payload(320, 180));
    let frame_header_obu_start = bitstream.len();
    bitstream.extend_from_slice(&make_obu(3, &[0x10, 0x11]));
    let first_tile_group_obu_start = bitstream.len();
    bitstream.extend_from_slice(&make_obu(4, &[0x20, 0x21]));
    let second_tile_group_obu_start = bitstream.len();
    bitstream.extend_from_slice(&make_obu(4, &[0x30, 0x31, 0x32]));

    let skeletons = build_av1_decode_submit_skeletons(&bitstream)
        .expect("multiple tile groups should produce one submit skeleton");

    assert_eq!(skeletons.len(), 1);
    assert_eq!(
        skeletons[0].frame_header_offset as usize,
        frame_header_obu_start + 2
    );
    assert_eq!(
        skeletons[0].tile_offsets,
        vec![
            (first_tile_group_obu_start + 2) as u32,
            (second_tile_group_obu_start + 2) as u32
        ]
    );
    assert_eq!(skeletons[0].tile_sizes, vec![2, 3]);
}

#[test]
fn decode_submit_skeletons_preserve_multiple_temporal_units() {
    let mut bitstream = make_obu(1, &av1_reduced_still_sequence_header_payload(320, 180));
    let first_frame_start = bitstream.len();
    bitstream.extend_from_slice(&make_obu(6, &[0x11, 0x12]));
    bitstream.extend_from_slice(&make_obu(2, &[]));
    let second_frame_start = bitstream.len();
    bitstream.extend_from_slice(&make_obu(6, &[0x21, 0x22, 0x23]));

    let submits = build_av1_decode_submit_skeletons(&bitstream)
        .expect("multiple frame OBUs should produce ordered submit skeletons");

    assert_eq!(submits.len(), 2);
    assert_eq!(submits[0].temporal_unit_index, 0);
    assert_eq!(
        submits[0].frame_header_offset as usize,
        first_frame_start + 2
    );
    assert_eq!(submits[0].tile_sizes, vec![2]);
    assert_eq!(submits[1].temporal_unit_index, 1);
    assert_eq!(
        submits[1].frame_header_offset as usize,
        second_frame_start + 2
    );
    assert_eq!(submits[1].tile_sizes, vec![3]);
}

#[test]
fn decode_submit_skeleton_rejects_tile_group_without_frame_header() {
    let mut bitstream = make_obu(1, &av1_reduced_still_sequence_header_payload(320, 180));
    bitstream.extend_from_slice(&make_obu(4, &[0x20, 0x21, 0x22]));

    let err = build_av1_decode_submit_skeleton(&bitstream)
        .expect_err("tile group without frame header should be rejected");
    assert!(err.contains("missing a preceding frame-header"));
}

#[test]
fn picture_info_skeleton_rejects_empty_tiles() {
    let submit = Av1DecodeSubmitSkeleton {
        temporal_unit_index: 0,
        frame_header_offset: 12,
        tile_offsets: Vec::new(),
        tile_sizes: Vec::new(),
    };

    let err = build_av1_decode_picture_info_skeleton(&submit)
        .expect_err("empty tile list should be rejected");
    assert!(err.contains("at least one tile offset"));
}

#[test]
fn decode_info_skeleton_covers_frame_header_and_tile_group_range() {
    let mut bitstream = make_obu(1, &av1_reduced_still_sequence_header_payload(320, 180));
    let frame_header_obu_start = bitstream.len();
    bitstream.extend_from_slice(&make_obu(3, &[0x10, 0x11]));
    let tile_group_obu_start = bitstream.len();
    bitstream.extend_from_slice(&make_obu(4, &[0x20, 0x21, 0x22]));

    let decode = build_av1_decode_info_skeleton(&bitstream)
        .expect("frame-header + tile-group OBUs should produce a decode info skeleton");
    let source_start = frame_header_obu_start + 2;
    let tile_payload_start = tile_group_obu_start + 2;
    let source_end = tile_payload_start + 3;

    assert_eq!(decode.src_buffer_offset as usize, source_start);
    assert_eq!(decode.src_buffer_range as usize, source_end - source_start);
    assert_eq!(decode.picture_info.frame_header_offset, 0);
    assert_eq!(
        decode.picture_info.tile_offsets,
        vec![(tile_payload_start - source_start) as u32]
    );
    assert_eq!(decode.picture_info.tile_sizes, vec![3]);
}

#[test]
fn decode_info_skeletons_preserve_multiple_temporal_units() {
    let mut bitstream = make_obu(1, &av1_reduced_still_sequence_header_payload(320, 180));
    let first_frame_start = bitstream.len();
    bitstream.extend_from_slice(&make_obu(6, &[0x11, 0x12]));
    bitstream.extend_from_slice(&make_obu(2, &[]));
    let second_frame_start = bitstream.len();
    bitstream.extend_from_slice(&make_obu(6, &[0x21, 0x22, 0x23]));

    let decodes = build_av1_decode_info_skeletons(&bitstream)
        .expect("multiple frame OBUs should produce ordered decode info skeletons");

    assert_eq!(decodes.len(), 2);
    assert_eq!(decodes[0].src_buffer_offset as usize, first_frame_start + 2);
    assert_eq!(decodes[0].src_buffer_range, 2);
    assert_eq!(decodes[0].temporal_unit_index, 0);
    assert_eq!(decodes[0].coded_width, 320);
    assert_eq!(decodes[0].coded_height, 180);
    assert_eq!(decodes[0].picture_info.frame_header_offset, 0);
    assert_eq!(
        decodes[1].src_buffer_offset as usize,
        second_frame_start + 2
    );
    assert_eq!(decodes[1].src_buffer_range, 3);
    assert_eq!(decodes[1].temporal_unit_index, 1);
    assert_eq!(decodes[1].picture_info.frame_header_offset, 0);
}

#[test]
fn aligned_decode_upload_plan_pads_offsets_and_ranges() {
    let mut bitstream = make_obu(1, &av1_reduced_still_sequence_header_payload(320, 180));
    bitstream.extend_from_slice(&make_obu(6, &[0x11, 0x12]));
    bitstream.extend_from_slice(&make_obu(2, &[]));
    bitstream.extend_from_slice(&make_obu(6, &[0x21, 0x22, 0x23]));

    let plan = build_av1_aligned_decode_bitstream_upload_plan(&bitstream, 8, 4)
        .expect("aligned upload plan should be built for multi-frame AV1");

    assert_eq!(plan.decodes.len(), 2);
    assert_eq!(plan.decodes[0].src_buffer_offset, 0);
    assert_eq!(plan.decodes[0].src_buffer_range, 4);
    assert_eq!(plan.decodes[1].src_buffer_offset, 8);
    assert_eq!(plan.decodes[1].src_buffer_range, 4);
    assert_eq!(&plan.bytes[0..2], &[0x11, 0x12]);
    assert_eq!(&plan.bytes[2..8], &[0; 6]);
    assert_eq!(&plan.bytes[8..11], &[0x21, 0x22, 0x23]);
    assert_eq!(plan.bytes[11], 0);
    assert_eq!(plan.decodes[0].picture_info.tile_offsets, vec![0]);
    assert_eq!(plan.decodes[1].picture_info.tile_offsets, vec![0]);
}

#[test]
fn aligned_upload_ranges_reject_command_decode_mismatch() {
    let mut bitstream = make_obu(1, &av1_reduced_still_sequence_header_payload(320, 180));
    bitstream.extend_from_slice(&make_obu(6, &[0x11, 0x12]));
    let (plan, mut command) =
        build_av1_aligned_key_frame_decode_command_skeleton(&bitstream, 1, 16, 8)
            .expect("single frame should produce an aligned command skeleton");
    command.frames[0].src_buffer_range = 4;

    let err = plan
        .frame_upload_ranges(&command)
        .expect_err("command/decode source range mismatch should be rejected");

    assert!(err.contains("source range mismatch"));
}

#[test]
fn key_frame_decode_command_skeleton_rejects_zero_dpb_slots() {
    let mut bitstream = make_obu(1, &av1_reduced_still_sequence_header_payload(320, 180));
    bitstream.extend_from_slice(&make_obu(6, &[0x11]));

    let err = build_av1_key_frame_decode_command_skeleton(&bitstream, 0)
        .expect_err("zero DPB slots should be rejected");

    assert!(err.contains("requires at least one DPB slot"));
}

#[test]
fn frame_record_bundles_reject_unavailable_setup_slots() {
    let command = Av1DecodeCommandSkeleton {
        coded_width: 320,
        coded_height: 180,
        begin_slots: vec![Av1BeginCodingSlotSkeleton {
            slot_index: 0,
            base_array_layer: 0,
        }],
        frames: vec![Av1DecodeFrameCommandSkeleton {
            frame_index: 0,
            temporal_unit_index: 0,
            setup_slot_index: 1,
            src_buffer_offset: 12,
            src_buffer_range: 3,
            tile_count: 1,
        }],
    };

    let err = command
        .frame_record_bundles()
        .expect_err("unavailable setup slot should be rejected");

    assert!(err.contains("unavailable setup slot"));
}

#[test]
fn find_video_codec_queue_family_index_requires_av1_decode_operation() {
    let decode = vk::QueueFlags::VIDEO_DECODE_KHR.as_raw();
    let families = vec![
        QueueFamily { queue_count: 1, queue_flags: decode },
        QueueFamily { queue_count: 1, queue_flags: decode },
    ];
    let operations = vec![
        vk::VideoCodecOperationFlagsKHR::DECODE_H265.as_raw(),
        vk::VideoCodecOperationFlagsKHR::DECODE_AV1.as_raw(),
    ];
    let index = find_video_codec_queue_family_index(
        &families,
        &operations,
        decode,
        vk::VideoCodecOperationFlagsKHR::DECODE_AV1.as_raw(),
    );
    assert_eq!(index, Some(1));
}

fn snapshot() -> Av1DecodeCapabilitySnapshot {
    Av1DecodeCapabilitySnapshot {
        min_coded_width: 16,
        min_coded_height: 16,
        max_coded_width: 4096,
        max_coded_height: 2160,
        min_bitstream_buffer_offset_alignment: 4096,
        min_bitstream_buffer_size_alignment: 4096,
        max_dpb_slots: 4,
        max_active_reference_pictures: 3,
        max_level: vk::native::StdVideoAV1Level_STD_VIDEO_AV1_LEVEL_4_0,
        decode_output_formats: Vec::new(),
    }
}

#[test]
fn capability_snapshot_validation_requires_output_format_and_dpb_slots() {
    let mut snapshot = snapshot();
    let err = validate_av1_decode_capability_snapshot(&snapshot)
        .expect_err("empty output format list should be rejected");
    assert!(err.contains("no output formats"));
    snapshot.decode_output_formats.push(vk::Format::G8_B8R8_2PLANE_420_UNORM.as_raw());
    validate_av1_decode_capability_snapshot(&snapshot)
        .expect("valid AV1 decode capability snapshot should pass");
    snapshot.max_dpb_slots = 0;
    let err = validate_av1_decode_capability_snapshot(&snapshot)
        .expect_err("zero DPB slots should be rejected");
    assert!(err.contains("max_dpb_slots=0"));
}

#[test]
fn probe_sequence_header_builder_uses_requested_extent() {
    let std_header = build_probe_av1_std_sequence_header(32, 24)
        .expect("probe sequence header dimensions should be valid");
    assert_eq!(std_header.max_frame_width_minus_1, 31);
    assert_eq!(std_header.max_frame_height_minus_1, 23);
    assert!(std_header.still_picture);
    assert!(std_header.reduced_still_picture_header);
    assert_eq!(std_header.frame_width_bits_minus_1, 4);
    assert_eq!(std_header.frame_height_bits_minus_1, 4);
}

#[test]
fn sequence_header_builder_populates_vulkan_std_header() {
    let payload = av1_reduced_still_sequence_header_payload(640, 360);
    let parsed = parse_av1_sequence_header_payload(&payload)
        .expect("synthetic reduced-still sequence header should parse");
    let std_header = build_av1_std_sequence_header(&parsed)
        .expect("synthetic reduced-still sequence header should map to Vulkan std header");
    assert_eq!(
        std_header.seq_profile,
        vk::native::StdVideoAV1Profile_STD_VIDEO_AV1_PROFILE_MAIN
    );
    assert!(std_header.still_picture);
    assert!(std_header.reduced_still_picture_header);
    assert_eq!(std_header.max_frame_width_minus_1, 639);
    assert_eq!(std_header.max_frame_height_minus_1, 359);
    assert_eq!(std_header.seq_force_integer_mv, 2);
    assert_eq!(std_header.seq_force_screen_content_tools, 2);
}

#[test]
fn bitstream_session_probe_rejects_missing_sequence_header_before_vulkan() {
    let bitstream = make_obu(6, &[0x80]);
    let err = extract_av1_std_sequence_header(&bitstream)
        .expect_err("missing AV1 sequence header should be rejected before Vulkan probing");
    assert!(err.contains("missing AV1 sequence header"));
}

#[test]
fn picture_info_skeleton_uses_key_frame_defaults_and_tiles() {
    let submit = Av1DecodeSubmitSkeleton {
        temporal_unit_index: 0,
        frame_header_offset: 12,
        tile_offsets: vec![12],
        tile_sizes: vec![5],
    };
    let picture = build_av1_decode_picture_info_skeleton(&submit)
        .expect("valid submit skeleton should map to picture info skeleton");
    assert_eq!(picture.frame_header_offset, 12);
    assert_eq!(picture.tile_offsets, vec![12]);
    assert_eq!(picture.tile_sizes, vec![5]);
    assert_eq!(
        picture.std_picture_info.frame_type,
        vk::native::StdVideoAV1FrameType_STD_VIDEO_AV1_FRAME_TYPE_KEY
    );
    assert!(picture.std_picture_info.error_resilient_mode);
    assert_eq!(picture.reference_name_slot_indices, vec![-1; 7]);
}

#[test]
fn decode_info_skeleton_rebases_frame_obu_offsets_to_source_range() {
    let mut bitstream = make_obu(1, &av1_reduced_still_sequence_header_payload(320, 180));
    let frame_obu_start = bitstream.len();
    bitstream.extend_from_slice(&make_obu(6, &[0xaa, 0xbb, 0xcc]));
    let decode = build_av1_decode_info_skeleton(&bitstream)
        .expect("frame OBU should produce a decode info skeleton");
    assert_eq!(decode.src_buffer_offset as usize, frame_obu_start + 2);
    assert_eq!(decode.src_buffer_range, 3);
    assert_eq!(decode.coded_width, 320);
    assert_eq!(decode.coded_height, 180);
    assert_eq!(
        u32::from(decode.setup_reference_info.frame_type),
        vk::native::StdVideoAV1FrameType_STD_VIDEO_AV1_FRAME_TYPE_KEY
    );
    assert_eq!(decode.setup_reference_info.order_hint, 0);
    assert_eq!(decode.picture_info.frame_header_offset, 0);
    assert_eq!(decode.picture_info.tile_offsets, vec![0]);
    assert_eq!(decode.picture_info.tile_sizes, vec![3]);
    assert_eq!(decode.tile_count(), 1);
}

#[test]
fn key_frame_decode_command_skeleton_rotates_setup_slots() {
    let mut bitstream = make_obu(1, &av1_reduced_still_sequence_header_payload(320, 180));
    bitstream.extend_from_slice(&make_obu(6, &[0x11]));
    bitstream.extend_from_slice(&make_obu(2, &[]));
    bitstream.extend_from_slice(&make_obu(6, &[0x21, 0x22]));
    bitstream.extend_from_slice(&make_obu(2, &[]));
    bitstream.extend_from_slice(&make_obu(6, &[0x31, 0x32, 0x33]));
    let command = build_av1_key_frame_decode_command_skeleton(&bitstream, 2)
        .expect("multi-frame key-frame stream should produce a command skeleton");
    assert_eq!(command.coded_width, 320);
    assert_eq!(command.coded_height, 180);
    assert_eq!(
        command.begin_slots,
        vec![
            Av1BeginCodingSlotSkeleton { slot_index: 0, base_array_layer: 0 },
            Av1BeginCodingSlotSkeleton { slot_index: 1, base_array_layer: 1 }
        ]
    );
    assert_eq!(command.frames.len(), 3);
    let slots: Vec<i32> = command.frames.iter().map(|frame| frame.setup_slot_index).collect();
    assert_eq!(slots, vec![0, 1, 0]);
    let units: Vec<usize> =
        command.frames.iter().map(|frame| frame.temporal_unit_index).collect();
    assert_eq!(units, vec![0, 1, 2]);
    let tiles: Vec<usize> = command.frames.iter().map(|frame| frame.tile_count).collect();
    assert_eq!(tiles, vec![1, 1, 1]);
    assert_eq!(command.coded_extent(), (320, 180));
    let begin_resources = command.begin_picture_resources();
    assert_eq!(begin_resources.len(), 2);
    assert_eq!(begin_resources[0].coded_width, 320);
    assert_eq!(begin_resources[0].coded_height, 180);
    assert_eq!(begin_resources[0].base_array_layer, 0);
    assert_eq!(begin_resources[1].base_array_layer, 1);
    let frame_resources = command
        .frame_picture_resources()
        .expect("frame setup slots should map to picture resources");
    assert_eq!(frame_resources.len(), 3);
    assert_eq!(frame_resources[0].base_array_layer, 0);
    assert_eq!(frame_resources[1].base_array_layer, 1);
    assert_eq!(frame_resources[2].base_array_layer, 0);
    assert_eq!(frame_resources[2].coded_width, 320);
    assert_eq!(frame_resources[2].coded_height, 180);
    let frame_bundles = command
        .frame_record_bundles()
        .expect("frame bundles should align with decode info indices");
    let bundle = |index: usize, slot: i32, range: u64| Av1DecodeFrameRecordBundle {
        frame_index: index,
        temporal_unit_index: index,
        decode_info_index: index,
        setup_slot_index: slot,
        dst_base_array_layer: slot as u32,
        src_buffer_offset: command.frames[index].src_buffer_offset,
        src_buffer_range: range,
        tile_count: 1,
    };
    assert_eq!(frame_bundles, vec![bundle(0, 0, 1), bundle(1, 1, 2), bundle(2, 0, 3)]);
    let begin_reference_infos = command.begin_std_reference_infos();
    assert_eq!(begin_reference_infos.len(), 2);
    assert_eq!(
        u32::from(begin_reference_infos[0].frame_type),
        vk::native::StdVideoAV1FrameType_STD_VIDEO_AV1_FRAME_TYPE_KEY
    );
    assert_eq!(begin_reference_infos[0].order_hint, 0);
    command
        .begin_dpb_slot_infos(&begin_reference_infos)
        .expect("matching begin reference infos should produce DPB slot infos");
    let begin_reference_slots = command
        .begin_reference_slots(&begin_resources, &begin_reference_infos)
        .expect("matching begin resources and DPB infos should produce reference slots");
    assert_eq!(begin_reference_slots.len(), 2);
    assert_eq!(begin_reference_slots[0].slot_index, 0);
    assert_eq!(begin_reference_slots[1].slot_index, 1);
    assert_eq!(begin_reference_slots[0].resource, begin_resources[0]);
    let reference_slot_count = command
        .vk_begin_coding_info(&begin_reference_slots)
        .expect("matching begin reference slots should build begin coding info");
    assert_eq!(reference_slot_count, 2);
    let step = |index: usize, slot: i32, range: u64| Av1DecodeRecordStep::DecodeFrame {
        frame_index: index,
        temporal_unit_index: index,
        setup_slot_index: slot,
        src_buffer_offset: command.frames[index].src_buffer_offset,
        src_buffer_range: range,
        tile_count: 1,
    };
    assert_eq!(
        command.record_steps(),
        vec![
            Av1DecodeRecordStep::BeginCoding { reference_slot_count: 2 },
            Av1DecodeRecordStep::ResetCoding,
            step(0, 0, 1),
            step(1, 1, 2),
            step(2, 0, 3),
            Av1DecodeRecordStep::EndCoding,
        ]
    );
}

#[test]
fn aligned_key_frame_decode_command_uses_upload_offsets() {
    let mut bitstream = make_obu(1, &av1_reduced_still_sequence_header_payload(320, 180));
    bitstream.extend_from_slice(&make_obu(6, &[0x11, 0x12]));
    bitstream.extend_from_slice(&make_obu(2, &[]));
    bitstream.extend_from_slice(&make_obu(6, &[0x21, 0x22, 0x23]));
    let (plan, command) = build_av1_aligned_key_frame_decode_command_skeleton(&bitstream, 2, 16, 8)
        .expect("aligned command skeleton should use aligned upload offsets");
    assert_eq!(plan.decodes.len(), 2);
    assert_eq!(command.frames.len(), 2);
    assert_eq!(command.frames[0].src_buffer_offset, 0);
    assert_eq!(command.frames[0].src_buffer_range, 8);
    assert_eq!(command.frames[1].src_buffer_offset, 16);
    assert_eq!(command.frames[1].src_buffer_range, 8);
    assert_eq!(command.frames[1].setup_slot_index, 1);
    assert_eq!(
        plan.frame_upload_ranges(&command)
            .expect("command frames should map into upload byte ranges"),
        vec![0..8, 16..24]
    );
    let bundle = |index: usize, range: Range<usize>| Av1DecodeFrameSubmitBundle {
        frame_index: index,
        temporal_unit_index: index,
        decode_info_index: index,
        setup_slot_index: index as i32,
        dst_base_array_layer: index as u32,
        src_buffer_offset: range.start as u64,
        src_buffer_range: 8,
        tile_count: 1,
        upload_range: range,
    };
    assert_eq!(
        plan.frame_submit_bundles(&command)
            .expect("aligned plan and command should produce submit bundles"),
        vec![bundle(0, 0..8), bundle(1, 16..24)]
    );
    let decode = plan
        .with_frame_decode_info(&command, 1)
        .expect("frame decode info should be found");
    assert_eq!(decode.frame_index, 1);
    assert_eq!(decode.src_buffer_offset, 16);
    assert_eq!(decode.src_buffer_range, 8);
    assert_eq!(decode.dst_base_array_layer, 1);
    assert_eq!((decode.temporal_unit_index, decode.tile_count), (1, 1));
    assert_eq!((decode.upload_start, decode.upload_end), (16, 24));
    assert_eq!(
        plan.with_frame_decode_info(&command, 2).unwrap_err(),
        "AV1 frame 2 is missing from submit bundles"
    );
    let all = plan
        .with_frame_decode_infos(&command)
        .expect("all frame decode infos should be found in command order");
    let summaries: Vec<(usize, i32, u64, u32)> = all
        .iter()
        .map(|d| (d.frame_index, d.setup_slot_index, d.src_buffer_offset, d.dst_base_array_layer))
        .collect();
    assert_eq!(summaries, vec![(0, 0, 0, 0), (1, 1, 16, 1)]);
    let (visits, outcome) = plan.visit_decode_command_sequence(&command);
    outcome.expect("command sequence should hold the commands in order");
    let texts: Vec<String> = visits
        .iter()
        .map(|visit| match visit {
            Av1DecodeCommandVisit::BeginCoding { reference_slot_count } => {
                format!("begin:{reference_slot_count}")
            }
            Av1DecodeCommandVisit::ResetCoding => "reset".to_string(),
            Av1DecodeCommandVisit::DecodeFrame(d) => format!(
                "decode:{}:{}:{}",
                d.frame_index, d.src_buffer_offset, d.dst_base_array_layer
            ),
            Av1DecodeCommandVisit::EndCoding => "end".to_string(),
        })
        .collect();
    assert_eq!(texts, vec!["begin:2", "reset", "decode:0:0:0", "decode:1:16:1", "end"]);
    let summary = plan
        .record_decode_command_sequence(&command, None)
        .expect("all command steps should be recorded");
    assert_eq!(
        summary,
        Av1DecodeCommandRecordSummary {
            begin_count: 1,
            reset_count: 1,
            decode_count: 2,
            end_count: 1,
        }
    );
    assert!(summary.validate_for_command(&command));
    assert_eq!(
        plan.record_decode_command_sequence(&command, Some("stopped".to_string())).unwrap_err(),
        "stopped"
    );
}

#[test]
fn begin_reference_slots_reject_mismatched_resource_counts() {
    let mut bitstream = make_obu(1, &av1_reduced_still_sequence_header_payload(320, 180));
    bitstream.extend_from_slice(&make_obu(6, &[0x11]));
    let command = build_av1_key_frame_decode_command_skeleton(&bitstream, 2)
        .expect("single frame should produce a command skeleton");
    let references = command.begin_std_reference_infos();
    let err = command
        .begin_reference_slots(&vec![], &references)
        .expect_err("resource count mismatch should be rejected");
    assert!(err.contains("picture resource count mismatch"));
    let err = command
        .begin_reference_slots(&command.begin_picture_resources(), &vec![])
        .expect_err("reference count mismatch should be rejected");
    assert_eq!(err, "AV1 begin DPB slot info count mismatch: dpb_infos=0, slots=2");
    let err = command.begin_dpb_slot_infos(&vec![]).unwrap_err();
    assert_eq!(err, "AV1 begin reference info count mismatch: refs=0, slots=2");
}

fn single_frame_command(slot_index: i32, base_array_layer: u32) -> Av1DecodeCommandSkeleton {
    Av1DecodeCommandSkeleton {
        coded_width: 320,
        coded_height: 180,
        begin_slots: vec![Av1BeginCodingSlotSkeleton { slot_index, base_array_layer }],
        frames: vec![Av1DecodeFrameCommandSkeleton {
            frame_index: 0,
            temporal_unit_index: 0,
            setup_slot_index: 1,
            src_buffer_offset: 12,
            src_buffer_range: 3,
            tile_count: 1,
        }],
    }
}

#[test]
fn frame_record_bundles_reject_slot_base_layer_mismatch() {
    let command = single_frame_command(1, 0);
    let err = command
        .frame_picture_resources()
        .expect_err("slot/base layer mismatch should be rejected");
    assert!(err.contains("setup slot/base layer mismatch"));
}

#[test]
fn begin_coding_info_rejects_mismatched_reference_slot_counts() {
    let mut bitstream = make_obu(1, &av1_reduced_still_sequence_header_payload(320, 180));
    bitstream.extend_from_slice(&make_obu(6, &[0x11]));
    let command = build_av1_key_frame_decode_command_skeleton(&bitstream, 2)
        .expect("single frame should produce a command skeleton");
    let err = command
        .vk_begin_coding_info(&vec![])
        .expect_err("reference slot count mismatch should be rejected");
    assert!(err.contains("begin reference slot count mismatch"));
}

#[test]
fn decode_info_source_range_rejects_tiles_beyond_bitstream() {
    let picture = Av1DecodePictureInfoSkeleton {
        std_picture_info: key_frame_std_picture_info(),
        reference_name_slot_indices: vec![-1; 7],
        frame_header_offset: 4,
        tile_offsets: vec![8],
        tile_sizes: vec![5],
    };
    let err = av1_decode_source_range(12, &picture)
        .expect_err("tile payload beyond the bitstream should be rejected");
    assert!(err.contains("exceeds bitstream length"));
    assert_eq!(av1_decode_source_range(13, &picture), Ok((4, 9)));
}

#[test]
fn av1_decode_probe_returns_known_status_variant() {
    let status = Av1DecodeProbe::new().finish();
    match status {
        Av1DecodePrerequisiteProbe::Ready
        | Av1DecodePrerequisiteProbe::MissingExtensions { .. }
        | Av1DecodePrerequisiteProbe::MissingDecodeQueueFamily
        | Av1DecodePrerequisiteProbe::NoCompatibleAdapter
        | Av1DecodePrerequisiteProbe::SessionBootstrapFailed(_)
        | Av1DecodePrerequisiteProbe::ProbeUnavailable(_) => {}
    }
}

#[test]
fn av1_constants_are_those_of_the_bindings() {
    assert_eq!(
        AV1_FRAME_TYPE_KEY,
        vk::native::StdVideoAV1FrameType_STD_VIDEO_AV1_FRAME_TYPE_KEY
    );
    assert_eq!(
        AV1_INTERPOLATION_FILTER_SWITCHABLE,
        vk::native::StdVideoAV1InterpolationFilter_STD_VIDEO_AV1_INTERPOLATION_FILTER_SWITCHABLE
    );
    assert_eq!(AV1_TX_MODE_SELECT, vk::native::StdVideoAV1TxMode_STD_VIDEO_AV1_TX_MODE_SELECT);
    assert_eq!(FORMAT_NV12, vk::Format::G8_B8R8_2PLANE_420_UNORM.as_raw());
}

#[test]
fn sizes_of_units_are_read_as_written() {
    assert_eq!(read_av1_leb128(&[0xe5, 0x8e, 0x26]), Ok((624_485, 3)));
    assert_eq!(read_av1_leb128(&[0x80; 8]).unwrap_err(), "LEB128 value exceeds AV1 8-byte limit");
    assert_eq!(read_av1_leb128(&[]).unwrap_err(), "truncated LEB128 value");
    for value in [0_usize, 1, 127, 128, 300, 16_384, 2_097_151] {
        let code = write_leb128(value);
        assert_eq!(read_av1_leb128(&code), Ok((value, code.len())));
    }
}

#[test]
fn units_are_described_by_their_ranges() {
    let mut bitstream = make_obu(2, &[]);
    bitstream.extend_from_slice(&[(15 << 3) | 0x06, 0x00, 2, 7, 8]);
    let records = parse_av1_low_overhead_obus(&bitstream).unwrap();
    assert_eq!(records.len(), 2);
    assert_eq!(records[1].obu_type, Av1ObuType::Padding);
    assert_eq!(records[1].obu_range, 2..7);
    assert_eq!(records[1].payload_range, 5..7);
    assert_eq!(
        parse_av1_low_overhead_obus(&[]).unwrap_err(),
        "AV1 bitstream contains no OBUs"
    );
    assert_eq!(
        parse_av1_low_overhead_obus(&[0x80]).unwrap_err(),
        "AV1 OBU at offset 0 sets obu_forbidden_bit"
    );
    assert_eq!(
        parse_av1_low_overhead_obus(&[0x01]).unwrap_err(),
        "AV1 OBU at offset 0 sets reserved bit"
    );
    assert_eq!(
        parse_av1_low_overhead_obus(&[0x06]).unwrap_err(),
        "AV1 OBU at offset 0 is truncated before extension header"
    );
}

#[test]
fn full_sequence_header_is_read() {
    let mut writer = BitWriter::default();
    writer.write_bits(0, 3);
    writer.write_bits(0, 1);
    writer.write_bits(0, 1);
    writer.write_bits(1, 1);
    writer.write_bits(1, 32);
    writer.write_bits(30, 32);
    writer.write_bits(1, 1);
    writer.write_bits(0b00101, 5);
    writer.write_bits(1, 1);
    writer.write_bits(9, 5);
    writer.write_bits(1, 32);
    writer.write_bits(9, 5);
    writer.write_bits(9, 5);
    writer.write_bits(1, 1);
    writer.write_bits(1, 5);
    writer.write_bits(0, 12);
    writer.write_bits(8, 5);
    writer.write_bits(1, 1);
    writer.write_bits(1, 1);
    writer.write_bits(9, 4);
    writer.write_bits(0, 12);
    writer.write_bits(3, 5);
    writer.write_bits(0, 1);
    writer.write_bits(8, 4);
    writer.write_bits(7, 4);
    writer.write_bits(319, 9);
    writer.write_bits(179, 8);
    writer.write_bits(1, 1);
    writer.write_bits(2, 4);
    writer.write_bits(1, 3);
    writer.write_bits(1, 1);
    writer.write_bits(0, 1);
    writer.write_bits(1, 1);
    let payload = writer.finish();
    let parsed = parse_av1_sequence_header_payload(&payload).unwrap();
    assert_eq!((parsed.coded_width(), parsed.coded_height()), (320, 180));
    assert!(parsed.use_128x128_superblock && parsed.enable_intra_edge_filter);
    assert!(!parsed.still_picture && !parsed.enable_filter_intra);
    assert_eq!(
        parse_av1_sequence_header_payload(&payload[..5]).unwrap_err(),
        "sequence header ended while reading time_scale"
    );
    assert_eq!(
        parse_av1_sequence_header_payload(&[]).unwrap_err(),
        "sequence header ended while reading seq_profile"
    );
}

#[test]
fn wide_fields_must_fit() {
    let data = [0x00, 0xff, 0x01, 0x00, 0x00, 0x00, 0x00, 0x00, 0x00];
    let mut fields = FieldReader::new(&data);
    assert_eq!(fields.read_bits_u8(16, "a"), Ok(0xff));
    assert_eq!(fields.read_bits_u8(9, "b"), Ok(2));
    let mut fields = FieldReader::new(&data);
    assert_eq!(fields.read_bits_u8(17, "c").unwrap_err(), "c does not fit in u8");
    let mut fields = FieldReader::new(&data);
    assert_eq!(fields.read_bits_u16(25, "d").unwrap_err(), "d does not fit in u16");
    let mut fields = FieldReader::new(&data);
    assert_eq!(fields.read_bits_u32(48, "e").unwrap_err(), "e does not fit in u32");
    let mut fields = FieldReader::new(&data);
    assert_eq!(fields.read_bits_u32(65, "f").unwrap_err(), "f bit count 65 exceeds 64");
}

#[test]
fn unsupported_headers_are_told() {
    let mut parsed =
        parse_av1_sequence_header_payload(&av1_reduced_still_sequence_header_payload(64, 64))
            .unwrap();
    parsed.seq_profile = 3;
    assert_eq!(
        build_av1_std_sequence_header(&parsed).unwrap_err(),
        "unsupported AV1 seq_profile 3"
    );
    parsed.seq_profile = 0;
    parsed.max_frame_height_minus_1 = 65_536;
    assert_eq!(
        build_av1_std_sequence_header(&parsed).unwrap_err(),
        "max_frame_height_minus_1 exceeds Vulkan std u16 range"
    );
    parsed.max_frame_width_minus_1 = 65_536;
    assert_eq!(
        build_av1_std_sequence_header(&parsed).unwrap_err(),
        "max_frame_width_minus_1 exceeds Vulkan std u16 range"
    );
    assert_eq!(
        build_probe_av1_std_sequence_header(0, 5).unwrap_err(),
        "AV1 probe sequence header dimensions must be positive, got 0x5"
    );
}

#[test]
fn rebasing_keeps_the_bytes_that_are_named() {
    let picture = || Av1DecodePictureInfoSkeleton {
        std_picture_info: key_frame_std_picture_info(),
        reference_name_slot_indices: vec![-1; 7],
        frame_header_offset: 10,
        tile_offsets: vec![12, 20],
        tile_sizes: vec![5, 6],
    };
    let moved = rebase_av1_picture_info_offsets(picture(), 10).unwrap();
    assert_eq!(moved.frame_header_offset, 0);
    assert_eq!(moved.tile_offsets, vec![2, 10]);
    assert_eq!(
        rebase_av1_picture_info_offsets(picture(), 11).unwrap_err(),
        "AV1 frame header offset precedes source buffer range"
    );
    let mut early = picture();
    early.tile_offsets[1] = 3;
    assert_eq!(
        rebase_av1_picture_info_offsets(early, 10).unwrap_err(),
        "AV1 tile offset precedes source buffer range"
    );
}

#[test]
fn empty_and_uneven_tiles_are_refused() {
    let submit = |offsets: Vec<u32>, sizes: Vec<u32>| Av1DecodeSubmitSkeleton {
        temporal_unit_index: 0,
        frame_header_offset: 1,
        tile_offsets: offsets,
        tile_sizes: sizes,
    };
    assert_eq!(
        build_av1_decode_picture_info_skeleton(&submit(vec![1, 2], vec![1])).unwrap_err(),
        "AV1 decode picture info tile offset/size count mismatch: offsets=2, sizes=1"
    );
    assert_eq!(
        build_av1_decode_picture_info_skeleton(&submit(vec![1], vec![0])).unwrap_err(),
        "AV1 decode picture info contains an empty tile payload"
    );
    let mut bitstream = make_obu(1, &av1_reduced_still_sequence_header_payload(320, 180));
    bitstream.extend_from_slice(&make_obu(6, &[]));
    assert_eq!(
        build_av1_decode_info_skeletons(&bitstream).unwrap_err(),
        "AV1 frame OBU payload is empty"
    );
}

#[test]
fn tile_sizes_are_counted() {
    assert_eq!(checked_tile_bytes(&vec![1, 2, 3]), Some(6));
    assert_eq!(checked_tile_bytes(&vec![u32::MAX, 1]), None);
    let mut bitstream = make_obu(1, &av1_reduced_still_sequence_header_payload(320, 180));
    bitstream.extend_from_slice(&make_obu(6, &[1, 2]));
    assert!(av1_tiles_countable(&bitstream));
    assert!(av1_tiles_countable(&[]));
}

#[test]
fn upload_values_are_aligned() {
    assert_eq!(align_up_av1_decode_value(13, 8), 16);
    assert_eq!(align_up_av1_decode_value(16, 8), 16);
    assert_eq!(align_up_av1_decode_value(13, 1), 13);
    assert_eq!(align_up_av1_decode_value(u64::MAX, 16), u64::MAX);
    let mut bitstream = make_obu(1, &av1_reduced_still_sequence_header_payload(320, 180));
    bitstream.extend_from_slice(&make_obu(6, &[1, 2]));
    let decodes = build_av1_decode_info_skeletons(&bitstream).unwrap();
    assert!(upload_plan_fits(&decodes, 4096, 4096));
    assert!(!upload_plan_fits(&decodes, 1, 1 << 63));
}

#[test]
fn probe_of_devices_follows_what_was_seen() {
    let all = Av1DecodeExtensionFlags {
        has_video_queue: true,
        has_video_decode_queue: true,
        has_video_decode_av1: true,
    };
    let names = vec!["VK_KHR_video_decode_av1".to_string(), "x".to_string()];
    let found = Av1DecodeExtensionFlags::from_names(&names);
    assert!(found.has_video_decode_av1 && !found.has_video_queue);
    let mut probe = Av1DecodeProbe::new();
    assert_eq!(
        probe.observe(Av1AdapterDecodeSupport {
            extensions: found,
            decode_queue_family_index: Some(1)
        }),
        None
    );
    assert_eq!(
        probe.finish(),
        Av1DecodePrerequisiteProbe::MissingExtensions {
            missing: vec![
                "VK_KHR_video_queue".to_string(),
                "VK_KHR_video_decode_queue".to_string()
            ]
        }
    );
    let mut probe = Av1DecodeProbe::new();
    assert_eq!(
        probe.observe(Av1AdapterDecodeSupport {
            extensions: all,
            decode_queue_family_index: None
        }),
        None
    );
    assert_eq!(probe.finish(), Av1DecodePrerequisiteProbe::MissingDecodeQueueFamily);
    assert_eq!(
        probe.observe(Av1AdapterDecodeSupport {
            extensions: all,
            decode_queue_family_index: Some(4)
        }),
        Some(4)
    );
    assert_eq!(probe.finish(), Av1DecodePrerequisiteProbe::NoCompatibleAdapter);
    probe.fail("e".to_string());
    assert_eq!(
        probe.finish(),
        Av1DecodePrerequisiteProbe::SessionBootstrapFailed("e".to_string())
    );
}

#[test]
fn output_of_a_bitstream_is_chosen_within_the_device() {
    let mut caps = snapshot();
    caps.decode_output_formats.push(9);
    assert_eq!(select_av1_bitstream_output(&caps, 320, 180), Ok(9));
    assert_eq!(
        select_av1_bitstream_output(&caps, 8, 180).unwrap_err(),
        "AV1 bitstream coded extent 8x180 is outside adapter range 16x16..4096x2160"
    );
    caps.max_active_reference_pictures = 5;
    assert_eq!(
        select_av1_bitstream_output(&caps, 320, 180).unwrap_err(),
        "AV1 decode capability query returned max_active_reference_pictures=5 greater than max_dpb_slots=4"
    );
    caps.min_coded_height = 0;
    assert_eq!(
        validate_av1_decode_capability_snapshot(&caps).unwrap_err(),
        "AV1 decode capability query returned zero minimum coded extent: 16x0"
    );
    caps.max_coded_width = 8;
    assert_eq!(
        validate_av1_decode_capability_snapshot(&caps).unwrap_err(),
        "AV1 decode capability query returned invalid coded extent range: min=16x0, max=8x2160"
    );
    assert_eq!(
        session_probe_failure_text(&vec![]),
        "no compatible Vulkan AV1 decode adapter found for bitstream session probe"
    );
    assert_eq!(
        session_probe_failure_text(&vec!["a".to_string(), "b".to_string()]),
        "AV1 bitstream session probe failed on all candidate adapters: a; b"
    );
}

#[test]
fn session_memory_is_summed() {
    let summary = summarize_session_memory(&vec![
        MemoryRequirement { size: 10, alignment: 4 },
        MemoryRequirement { size: 5, alignment: 16 },
    ]);
    assert_eq!(summary.memory_requirement_count, 2);
    assert_eq!(summary.memory_total_size, 15);
    assert_eq!(summary.memory_max_alignment, 16);
    assert_eq!(summary.memory_bound_count, 0);
}

#[test]
fn memory_types_are_chosen_by_preference() {
    let local = vk::MemoryPropertyFlags::DEVICE_LOCAL.as_raw();
    let visible = vk::MemoryPropertyFlags::HOST_VISIBLE.as_raw();
    let coherent = vk::MemoryPropertyFlags::HOST_COHERENT.as_raw();
    let types = vec![0, visible, local, visible | coherent];
    assert_eq!(select_memory_type_index(&types, 0b1111, visible), Some(1));
    assert_eq!(select_memory_type_index(&types, 0b0101, visible), None);
    assert_eq!(select_device_memory(&types, 0b1111), Some(2));
    assert_eq!(select_device_memory(&types, 0b0011), Some(0));
    assert_eq!(select_host_memory(&types, 0b1111), Some(3));
    assert_eq!(select_host_memory(&types, 0b0111), Some(1));
    assert_eq!(select_host_memory(&types, 0b0101), Some(2));
    assert_eq!(select_host_memory(&types, 0b0001), Some(0));
    assert_eq!(select_session_memory("AV1", 3, &types, 0b100), Ok(2));
    assert_eq!(
        select_session_memory("encode", 3, &types, 0xAB0).unwrap_err(),
        "no compatible memory type for encode video session bind index 3 (bits=0xAB0)"
    );
}

#[test]
fn validation_messages_carry_their_severity() {
    let error = vk::DebugUtilsMessageSeverityFlagsEXT::ERROR.as_raw();
    let warning = vk::DebugUtilsMessageSeverityFlagsEXT::WARNING.as_raw();
    assert_eq!(validation_message(error | warning, "m"), "[error] m");
    assert_eq!(validation_message(warning, "m"), "[warn] m");
    assert_eq!(validation_message(0, "m"), "[info] m");
}

fn make_obu(obu_type: u8, payload: &[u8]) -> Vec<u8> {
    let mut out = vec![(obu_type << 3) | 0x02];
    out.extend(write_leb128(payload.len()));
    out.extend_from_slice(payload);
    out
}

fn av1_reduced_still_sequence_header_payload(width: u32, height: u32) -> Vec<u8> {
    let width_minus_1 = width.checked_sub(1).expect("width must be positive");
    let height_minus_1 = height.checked_sub(1).expect("height must be positive");
    let width_bits = 32 - width_minus_1.leading_zeros();
    let height_bits = 32 - height_minus_1.leading_zeros();
    let mut writer = BitWriter::default();
    writer.write_bits(0, 3);
    writer.write_bits(1, 1);
    writer.write_bits(1, 1);
    writer.write_bits(0, 5);
    writer.write_bits(u64::from(width_bits - 1), 4);
    writer.write_bits(u64::from(height_bits - 1), 4);
    writer.write_bits(u64::from(width_minus_1), width_bits as usize);
    writer.write_bits(u64::from(height_minus_1), height_bits as usize);
    writer.write_bits(0, 1);
    writer.write_bits(0, 1);
    writer.write_bits(0, 1);
    writer.finish()
}

fn write_leb128(mut value: usize) -> Vec<u8> {
    let mut out = Vec::new();
    loop {
        let mut byte = (value & 0x7f) as u8;
        value >>= 7;
        if value != 0 {
            byte |= 0x80;
        }
        out.push(byte);
        if value == 0 {
            break;
        }
    }
    out
}

#[derive(Default)]
struct BitWriter {
    data: Vec<u8>,
    bit_offset: usize,
}

impl BitWriter {
    fn write_bits(&mut self, value: u64, count: usize) {
        for shift in (0..count).rev() {
            if self.bit_offset % 8 == 0 {
                self.data.push(0);
            }
            let bit = ((value >> shift) & 1) as u8;
            let byte = self.data.last_mut().expect("byte exists after push");
            *byte |= bit << (7 - (self.bit_offset % 8));
            self.bit_offset += 1;
        }
    }

    fn finish(self) -> Vec<u8> {
        self.data
    }
}
