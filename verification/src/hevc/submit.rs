//! What the HEVC encode probe records, and what it tells when recording fails.

use super::encode::{
    chosen_rate_control, chosen_qp, hevc_encode_probe_chosen_qp,
    hevc_encode_probe_pic_order_cnt_val, hevc_encode_probe_picture_type,
    hevc_encode_probe_reference_idx_minus1, hevc_encode_probe_reference_list_entry,
    hevc_encode_probe_slice_qp_delta, hevc_encode_probe_slice_type, hevc_encode_probe_temporal_id,
    inter, qp_delta, qp_delta_message, resolve_hevc_encode_probe_selected_rate_control_mode,
    ValidationMessages, RATE_CONTROL_DISABLED,
};
use super::modes::{
    hevc_encode_parameter_mode_label, hevc_encode_pre_encode_probe_mode_label,
    hevc_encode_primary_probe_mode_label, hevc_encode_probe_begin_reference_slot_mode_label,
    hevc_encode_probe_begin_session_parameters_mode_label, hevc_encode_probe_codec_info_mode_label,
    hevc_encode_probe_control_mode_label, hevc_encode_probe_maintenance1_mode_label,
    hevc_encode_probe_nalu_mode_label, hevc_encode_probe_picture_flags_mode_label,
    hevc_encode_probe_picture_info_mode_label,
    hevc_encode_probe_picture_resource_extent_mode_label,
    hevc_encode_probe_rate_control_mode_label, hevc_encode_probe_reference_index_mode_label,
    hevc_encode_probe_reference_list_mode_label, hevc_encode_probe_rps_mode_label,
    hevc_encode_probe_session_dpb_mode_label, hevc_encode_probe_setup_reference_slot_mode_label,
    HevcEncodeParameterMode, HevcEncodePreEncodeProbeMode, HevcEncodePrimaryProbeMode,
    HevcEncodeProbeBeginReferenceSlotMode, HevcEncodeProbeBeginSessionParametersMode,
    HevcEncodeProbeCodecInfoMode, HevcEncodeProbeControlMode, HevcEncodeProbeMaintenance1Mode,
    HevcEncodeProbeNaluMode, HevcEncodeProbePictureFlagsMode, HevcEncodeProbePictureInfoMode,
    HevcEncodeProbePictureResourceExtentMode, HevcEncodeProbeRateControlMode,
    HevcEncodeProbeReferenceIndexMode, HevcEncodeProbeReferenceListMode, HevcEncodeProbeRpsMode,
    HevcEncodeProbeSessionDpbMode, HevcEncodeProbeSetupReferenceSlotMode,
};
use super::parity::{
    HevcEncodeBeginNextMode, HevcEncodeDpbBarrierMode, HevcEncodeDstRangeMode,
    HevcEncodeImageViewMode, HevcEncodeParitySettings, HevcEncodeReferenceSlotPointerMode,
};
use crate::av1::plan::{align_up_av1_decode_value, aligned, law_aligned};
use crate::text::{bool_chars, bool_text, decimal, decimal_text, hex_bytes, hex_text, joined};
use crate::text::{signed_decimal, signed_text, size_text};
use crate::vk_names::{
    format_name, format_name_text, rate_control_mode_name, rate_control_mode_name_text,
    std_syntax_name, std_syntax_name_text,
};
use crate::vulkan::{contains_flags, has_flags};
use vstd::prelude::*;
use vstd::slice::*;
use vstd::string::*;

verus! {

pub const FEEDBACK_BUFFER_OFFSET: u32 = 1;

pub const FEEDBACK_BYTES_WRITTEN: u32 = 2;

pub const CODING_CONTROL_RESET: u32 = 1;

pub const CODING_CONTROL_RATE_CONTROL: u32 = 2;

pub const CODING_CONTROL_QUALITY_LEVEL: u32 = 4;

/// The least size of the buffer that is encoded into.
pub const MIN_DST_BUFFER_BYTES: u64 = 1_048_576;

#[derive(Debug, Clone, Copy, PartialEq, Eq, Structural)]
pub struct HevcEncodeParameterSetIds {
    pub vps_id: u8,
    pub sps_id: u8,
    pub pps_id: u8,
}

/// What is encoded, and what the device and the session offer for it.
#[derive(Debug, Clone, Copy, PartialEq, Eq, Structural)]
pub struct HevcEncodeSubmitExecutionConfig {
    pub queue_family_index: u32,
    pub parameter_set_ids: HevcEncodeParameterSetIds,
    pub parameter_set_coded_width: u32,
    pub parameter_set_coded_height: u32,
    pub parameter_set_pps_init_qp_minus26: i8,
    pub parameter_set_sample_adaptive_offset_enabled: bool,
    pub parameter_set_sps_temporal_mvp_enabled: bool,
    /// What the device can encode with.
    pub std_syntax_flags: u32,
    pub parameter_mode: HevcEncodeParameterMode,
    pub coded_width: u32,
    pub coded_height: u32,
    pub picture_format: i32,
    pub reference_picture_format: i32,
    pub picture_access_granularity_width: u32,
    pub picture_access_granularity_height: u32,
    pub rate_control_modes: u32,
    pub max_rate_control_layers: u32,
    pub max_quality_levels: u32,
    pub supported_encode_feedback_flags: u32,
    pub min_bitstream_buffer_offset_alignment: u64,
    pub min_bitstream_buffer_size_alignment: u64,
    pub maintenance1_mode: HevcEncodeProbeMaintenance1Mode,
    pub maintenance1_feature_enabled: bool,
    pub session_dpb_mode: HevcEncodeProbeSessionDpbMode,
    pub session_max_dpb_slots: u32,
    pub session_max_active_reference_pictures: u32,
}

/// The modes that a probe runs in.
#[derive(Debug, Clone, Copy, PartialEq, Eq, Structural)]
pub struct HevcEncodeProbeModes {
    pub rate_control: HevcEncodeProbeRateControlMode,
    pub reference_list: HevcEncodeProbeReferenceListMode,
    pub reference_index: HevcEncodeProbeReferenceIndexMode,
    pub rps: HevcEncodeProbeRpsMode,
    pub begin_reference_slot: HevcEncodeProbeBeginReferenceSlotMode,
    pub setup_reference_slot: HevcEncodeProbeSetupReferenceSlotMode,
    pub begin_session_parameters: HevcEncodeProbeBeginSessionParametersMode,
    pub control: HevcEncodeProbeControlMode,
    pub nalu: HevcEncodeProbeNaluMode,
    pub codec_info: HevcEncodeProbeCodecInfoMode,
    pub primary: HevcEncodePrimaryProbeMode,
    pub picture_flags: HevcEncodeProbePictureFlagsMode,
    pub picture_info: HevcEncodeProbePictureInfoMode,
    pub picture_resource_extent: HevcEncodeProbePictureResourceExtentMode,
    pub parity: HevcEncodeParitySettings,
}

/// What is recorded.
#[derive(Debug, Clone, Copy, PartialEq, Eq, Structural)]
pub struct HevcEncodeSubmitPlan {
    pub image_width: u32,
    pub image_height: u32,
    pub picture_resource_coded_width: u32,
    pub picture_resource_coded_height: u32,
    pub source_coded_width: u32,
    pub source_coded_height: u32,
    pub dst_buffer_offset: u64,
    pub dst_buffer_range: u64,
    pub dst_buffer_size: u64,
    pub selected_rate_control_mode: Option<u32>,
    pub selected_quality_level: u32,
    pub enable_quality_level_control: bool,
    pub picture_type: u32,
    pub slice_type: u32,
    pub temporal_id: u8,
    pub pic_order_cnt_val: i32,
    pub constant_qp: i32,
    pub slice_qp_delta: i8,
    pub reference_idx_minus1: u8,
    pub reference_list_entry: u8,
    pub reference_lists_given: bool,
    pub reference_sets_given: bool,
    pub is_reference: bool,
    pub slice_count: u32,
    pub begin_with_session_parameters: bool,
    pub begin_with_reference_slot: bool,
    /// Whether the slot that a coding scope is opened with is described for this codec.
    pub begin_slot_with_codec_info: bool,
    pub begin_with_rate_control: bool,
    pub setup_reference_slot: bool,
    pub dpb_barrier: bool,
    /// Whether an empty list of reference slots has an address.
    pub reference_slots_have_address: bool,
    pub ycbcr_views: bool,
}

pub open spec fn at_least_one(n: int) -> int {
    if n < 1 { 1 } else { n }
}

// ---------------------------------------------------------------------------
// Sizes

/// The size of an image that holds a picture: each side up to a multiple of the
/// granularity.
pub open spec fn image_side(coded: u32, granularity: u32) -> int {
    aligned(coded as int, at_least_one(granularity as int))
}

/// Why no image can hold the picture, if none can.
pub open spec fn image_fault(config: HevcEncodeSubmitExecutionConfig) -> Option<Seq<char>> {
    if image_side(config.coded_width, config.picture_access_granularity_width) > u32::MAX {
        Some("aligned encode source image width exceeds u32 range"@)
    } else if image_side(config.coded_height, config.picture_access_granularity_height)
        > u32::MAX {
        Some("aligned encode source image height exceeds u32 range"@)
    } else {
        None
    }
}

pub fn align_up(value: u64, alignment: u64) -> (r: u64)
    ensures
        r == aligned(value as int, alignment as int),
{
    align_up_av1_decode_value(value, alignment)
}

pub fn hevc_encode_image_extent(config: &HevcEncodeSubmitExecutionConfig) -> (r: Result<
    (u32, u32),
    String,
>)
    ensures
        match image_fault(*config) {
            Some(e) => r matches Err(m) && m@ == e,
            None => r matches Ok(extent) && extent.0 == image_side(
                config.coded_width,
                config.picture_access_granularity_width,
            ) && extent.1 == image_side(
                config.coded_height,
                config.picture_access_granularity_height,
            ),
        },
{
    let step_x: u64 = if config.picture_access_granularity_width == 0 {
        1
    } else {
        config.picture_access_granularity_width as u64
    };
    let step_y: u64 = if config.picture_access_granularity_height == 0 {
        1
    } else {
        config.picture_access_granularity_height as u64
    };
    proof {
        law_aligned(config.coded_width as int, step_x as int);
        law_aligned(config.coded_height as int, step_y as int);
    }
    let width: u64 = align_up(config.coded_width as u64, step_x);
    if width > 0xffff_ffff {
        return Err(String::from_str("aligned encode source image width exceeds u32 range"));
    }
    let height: u64 = align_up(config.coded_height as u64, step_y);
    if height > 0xffff_ffff {
        return Err(String::from_str("aligned encode source image height exceeds u32 range"));
    }
    Ok((width as u32, height as u32))
}

/// Four bytes for each pixel, but not less than the least size.
pub open spec fn dst_base_size(width: u32, height: u32) -> int {
    let bytes = width as int * height as int * 4;
    if bytes > u64::MAX {
        u64::MAX as int
    } else if bytes < 1_048_576 {
        1_048_576
    } else {
        bytes
    }
}

/// The size of the buffer that is encoded into.
pub open spec fn dst_range(config: HevcEncodeSubmitExecutionConfig) -> int {
    aligned(
        dst_base_size(config.coded_width, config.coded_height),
        at_least_one(config.min_bitstream_buffer_size_alignment as int),
    )
}

/// The buffer that is encoded into holds four bytes for each pixel and at least the
/// least size, so it is never empty.
pub proof fn law_dst_range_holds_picture(config: HevcEncodeSubmitExecutionConfig)
    requires
        config.coded_width * config.coded_height * 4 <= u64::MAX,
    ensures
        dst_range(config) >= config.coded_width * config.coded_height * 4,
        dst_range(config) >= 1_048_576,
        dst_range(config) <= u64::MAX,
{
    law_aligned(
        dst_base_size(config.coded_width, config.coded_height),
        at_least_one(config.min_bitstream_buffer_size_alignment as int),
    );
}

pub fn hevc_encode_dst_buffer_range(config: &HevcEncodeSubmitExecutionConfig) -> (r: u64)
    ensures
        r == dst_range(*config),
        r >= 1_048_576,
{
    let width: u64 = config.coded_width as u64;
    let height: u64 = config.coded_height as u64;
    assert(width * height <= 0xffff_ffff * 0xffff_ffff) by (nonlinear_arith)
        requires
            width <= 0xffff_ffff,
            height <= 0xffff_ffff,
    ;
    assert(0 <= width * height) by (nonlinear_arith);
    let bytes: u64 = match (width * height).checked_mul(4) {
        Some(bytes) => bytes,
        None => u64::MAX,
    };
    let base: u64 = if bytes < MIN_DST_BUFFER_BYTES { MIN_DST_BUFFER_BYTES } else { bytes };
    let alignment: u64 = if config.min_bitstream_buffer_size_alignment == 0 {
        1
    } else {
        config.min_bitstream_buffer_size_alignment
    };
    proof {
        law_aligned(base as int, alignment as int);
    }
    align_up(base, alignment)
}

/// The part of the buffer that is encoded into.
pub open spec fn used_range(
    config: HevcEncodeSubmitExecutionConfig,
    mode: HevcEncodeDstRangeMode,
) -> int {
    let full = dst_range(config);
    let reserved = at_least_one(config.min_bitstream_buffer_size_alignment as int);
    match mode {
        HevcEncodeDstRangeMode::Full => full,
        HevcEncodeDstRangeMode::ReserveAlignment => if reserved <= full {
            full - reserved
        } else {
            0
        },
    }
}

/// Why the encoded picture has no place in a buffer, if it has none.
pub open spec fn dst_fault(
    config: HevcEncodeSubmitExecutionConfig,
    parity: HevcEncodeParitySettings,
) -> Option<Seq<char>> {
    let offset = parity.dst_prefix_bytes;
    let alignment = at_least_one(config.min_bitstream_buffer_offset_alignment as int);
    if offset as int % alignment != 0 {
        Some(
            "encode dst buffer offset "@ + decimal(offset as nat) + " is not aligned to "@
                + decimal(alignment as nat),
        )
    } else if used_range(config, parity.dst_range) == 0 {
        Some("encode dst buffer range resolved to zero"@)
    } else if offset + dst_range(config) > u64::MAX {
        Some("encode dst buffer size overflow"@)
    } else {
        None
    }
}

/// The part that is encoded into starts at a multiple of the alignment, is not empty and
/// lies in the buffer.
pub proof fn law_encoded_part_lies_in_the_buffer(
    config: HevcEncodeSubmitExecutionConfig,
    parity: HevcEncodeParitySettings,
)
    requires
        dst_fault(config, parity) is None,
    ensures
        parity.dst_prefix_bytes as int % at_least_one(
            config.min_bitstream_buffer_offset_alignment as int,
        ) == 0,
        0 < used_range(config, parity.dst_range),
        parity.dst_prefix_bytes + used_range(config, parity.dst_range) <= parity.dst_prefix_bytes
            + dst_range(config) <= u64::MAX,
{
    law_aligned(
        dst_base_size(config.coded_width, config.coded_height),
        at_least_one(config.min_bitstream_buffer_size_alignment as int),
    );
}

/// Where the encoded picture is placed: the part of the buffer that is encoded into, and
/// the size of the buffer with what stands before that part.
pub fn hevc_encode_dst_placement(
    config: &HevcEncodeSubmitExecutionConfig,
    parity: &HevcEncodeParitySettings,
) -> (r: Result<(u64, u64), String>)
    ensures
        match dst_fault(*config, *parity) {
            Some(e) => r matches Err(m) && m@ == e,
            None => r matches Ok((range, size)) && range == used_range(*config, parity.dst_range)
                && size == parity.dst_prefix_bytes + dst_range(*config),
        },
{
    let offset: u64 = parity.dst_prefix_bytes;
    let offset_alignment: u64 = if config.min_bitstream_buffer_offset_alignment == 0 {
        1
    } else {
        config.min_bitstream_buffer_offset_alignment
    };
    if offset % offset_alignment != 0 {
        return Err(
            String::from_str("encode dst buffer offset ").concat(
                decimal_text(offset).as_str(),
            ).concat(" is not aligned to ").concat(decimal_text(offset_alignment).as_str()),
        );
    }
    let full: u64 = hevc_encode_dst_buffer_range(config);
    let reserved: u64 = if config.min_bitstream_buffer_size_alignment == 0 {
        1
    } else {
        config.min_bitstream_buffer_size_alignment
    };
    let range: u64 = match parity.dst_range {
        HevcEncodeDstRangeMode::Full => full,
        HevcEncodeDstRangeMode::ReserveAlignment => if reserved <= full {
            full - reserved
        } else {
            0
        },
    };
    if range == 0 {
        return Err(String::from_str("encode dst buffer range resolved to zero"));
    }
    match offset.checked_add(full) {
        Some(size) => Ok((range, size)),
        None => Err(String::from_str("encode dst buffer size overflow")),
    }
}

/// The device must count the bytes that it writes.
pub fn check_hevc_encode_feedback(supported_flags: u32) -> (r: Result<(), String>)
    ensures
        r is Ok <==> has_flags(supported_flags, 2),
        r matches Err(m) ==> m@
            == "encode submit feedback does not support BITSTREAM_BYTES_WRITTEN"@,
{
    if !contains_flags(supported_flags, FEEDBACK_BYTES_WRITTEN) {
        return Err(
            String::from_str("encode submit feedback does not support BITSTREAM_BYTES_WRITTEN"),
        );
    }
    Ok(())
}

/// What is asked back: the bytes written, and where they start if that is offered.
pub fn hevc_encode_feedback_flags(supported_flags: u32) -> (r: u32)
    ensures
        r == (if has_flags(supported_flags, 1) { 3u32 } else { 2u32 }),
{
    if contains_flags(supported_flags, FEEDBACK_BUFFER_OFFSET) {
        FEEDBACK_BYTES_WRITTEN + FEEDBACK_BUFFER_OFFSET
    } else {
        FEEDBACK_BYTES_WRITTEN
    }
}

// ---------------------------------------------------------------------------
// Coding control

/// What is set when a coding scope has been opened.
#[derive(Debug, Clone, Copy, PartialEq, Eq, Structural)]
pub struct HevcCodingControl {
    /// Whether anything is set at all.
    pub issue: bool,
    pub flags: u32,
    pub rate_control_mode: u32,
    /// Whether rate control is set.
    pub sets_rate_control: bool,
    /// Whether rate control is given a layer and a buffer.
    pub with_layer: bool,
    /// Whether rate control is told the structure of the sequence.
    pub with_sequence_structure: bool,
    pub sets_quality_level: bool,
}

/// The coding control of a mode. A trial recording does not tell the structure of the
/// sequence.
pub open spec fn coding_control(
    mode: HevcEncodeProbeControlMode,
    selected: Option<u32>,
    quality: bool,
    trial: bool,
) -> HevcCodingControl {
    let rate = match selected {
        Some(m) => m,
        None => 1u32,
    };
    let active = rate != 1;
    let sets = match mode {
        HevcEncodeProbeControlMode::Default => active,
        HevcEncodeProbeControlMode::Ffmpeg => true,
        HevcEncodeProbeControlMode::NoControl => false,
    };
    let issue = mode != HevcEncodeProbeControlMode::NoControl;
    HevcCodingControl {
        issue,
        flags: (1 + (if sets { 2int } else { 0int }) + (if issue && quality {
            4int
        } else {
            0int
        })) as u32,
        rate_control_mode: rate,
        sets_rate_control: sets,
        with_layer: sets && active,
        with_sequence_structure: sets && !trial,
        sets_quality_level: issue && quality,
    }
}

pub fn hevc_encode_coding_control(
    control_mode: HevcEncodeProbeControlMode,
    selected_rate_control_mode: Option<u32>,
    enable_quality_level_control: bool,
    trial: bool,
) -> (r: HevcCodingControl)
    ensures
        r == coding_control(
            control_mode,
            selected_rate_control_mode,
            enable_quality_level_control,
            trial,
        ),
{
    let rate_control_mode: u32 = match selected_rate_control_mode {
        Some(mode) => mode,
        None => RATE_CONTROL_DISABLED,
    };
    let active: bool = rate_control_mode != RATE_CONTROL_DISABLED;
    let mut control = HevcCodingControl {
        issue: true,
        flags: CODING_CONTROL_RESET,
        rate_control_mode,
        sets_rate_control: false,
        with_layer: false,
        with_sequence_structure: false,
        sets_quality_level: false,
    };
    match control_mode {
        HevcEncodeProbeControlMode::Default => {
            if active {
                control.sets_rate_control = true;
                control.with_layer = true;
                control.with_sequence_structure = !trial;
                control.flags = control.flags + CODING_CONTROL_RATE_CONTROL;
            }
            if enable_quality_level_control {
                control.flags = control.flags + CODING_CONTROL_QUALITY_LEVEL;
                control.sets_quality_level = true;
            }
        },
        HevcEncodeProbeControlMode::Ffmpeg => {
            control.sets_rate_control = true;
            control.with_layer = active;
            control.with_sequence_structure = !trial;
            control.flags = control.flags + CODING_CONTROL_RATE_CONTROL;
            if enable_quality_level_control {
                control.flags = control.flags + CODING_CONTROL_QUALITY_LEVEL;
                control.sets_quality_level = true;
            }
        },
        HevcEncodeProbeControlMode::NoControl => {
            control.issue = false;
        },
    }
    control
}

// ---------------------------------------------------------------------------
// The main recording

/// What is recorded, or why it cannot be.
pub open spec fn submit_plan(
    config: HevcEncodeSubmitExecutionConfig,
    modes: HevcEncodeProbeModes,
) -> Result<HevcEncodeSubmitPlan, Seq<char>> {
    let selected = chosen_rate_control(
        modes.rate_control,
        config.rate_control_modes,
        config.max_rate_control_layers,
    );
    let qp = chosen_qp(selected, modes.parity.constant_qp);
    let delta = qp_delta(qp, config.parameter_set_pps_init_qp_minus26);
    let width = image_side(config.coded_width, config.picture_access_granularity_width) as u32;
    let height = image_side(config.coded_height, config.picture_access_granularity_height) as u32;
    let coded = modes.picture_resource_extent == HevcEncodeProbePictureResourceExtentMode::Coded;
    let parity = modes.parity;
    let source_coded = parity.source_extent == HevcEncodeProbePictureResourceExtentMode::Coded;
    if image_fault(config) is Some {
        Err(image_fault(config)->0)
    } else if dst_fault(config, parity) is Some {
        Err(dst_fault(config, parity)->0)
    } else if !(-128 <= delta <= 127) {
        Err(
            qp_delta_message(qp, config.parameter_set_pps_init_qp_minus26) + " for submit probe"@,
        )
    } else {
        Ok(
            HevcEncodeSubmitPlan {
                image_width: width,
                image_height: height,
                picture_resource_coded_width: if coded { config.coded_width } else { width },
                picture_resource_coded_height: if coded { config.coded_height } else { height },
                source_coded_width: if source_coded { config.coded_width } else { width },
                source_coded_height: if source_coded { config.coded_height } else { height },
                dst_buffer_offset: parity.dst_prefix_bytes,
                dst_buffer_range: used_range(config, parity.dst_range) as u64,
                dst_buffer_size: (parity.dst_prefix_bytes + dst_range(config)) as u64,
                selected_rate_control_mode: selected,
                selected_quality_level: match parity.quality_level {
                    Some(level) => level,
                    None => 0,
                },
                enable_quality_level_control: config.max_quality_levels > 0,
                picture_type: if inter(modes.picture_info) {
                    0
                } else if modes.picture_info == HevcEncodeProbePictureInfoMode::IntraI {
                    2
                } else {
                    3
                },
                slice_type: if inter(modes.picture_info) { 1 } else { 2 },
                temporal_id: if modes.picture_info == HevcEncodeProbePictureInfoMode::Temporal1 {
                    1
                } else {
                    0
                },
                pic_order_cnt_val: if modes.picture_info == HevcEncodeProbePictureInfoMode::Poc1 {
                    1
                } else {
                    0
                },
                constant_qp: qp,
                slice_qp_delta: delta as i8,
                reference_idx_minus1: if modes.reference_index
                    == HevcEncodeProbeReferenceIndexMode::Zero {
                    0
                } else {
                    255
                },
                reference_list_entry: if modes.reference_list
                    == HevcEncodeProbeReferenceListMode::Zero {
                    0
                } else {
                    255
                },
                reference_lists_given: modes.reference_list
                    != HevcEncodeProbeReferenceListMode::NullPointers,
                reference_sets_given: modes.rps == HevcEncodeProbeRpsMode::EmptyStruct,
                is_reference: modes.picture_flags == HevcEncodeProbePictureFlagsMode::Default,
                slice_count: if modes.nalu == HevcEncodeProbeNaluMode::SingleSlice { 1 } else { 0 },
                begin_with_session_parameters: modes.begin_session_parameters
                    == HevcEncodeProbeBeginSessionParametersMode::With,
                begin_with_reference_slot: modes.begin_reference_slot
                    != HevcEncodeProbeBeginReferenceSlotMode::NoSlot,
                begin_slot_with_codec_info: modes.begin_reference_slot
                    == HevcEncodeProbeBeginReferenceSlotMode::SlotMinusOne,
                begin_with_rate_control: parity.begin_next == HevcEncodeBeginNextMode::RateControl,
                setup_reference_slot: modes.setup_reference_slot
                    == HevcEncodeProbeSetupReferenceSlotMode::SlotZero,
                dpb_barrier: parity.dpb_barrier == HevcEncodeDpbBarrierMode::With,
                reference_slots_have_address: parity.reference_slot_pointer
                    == HevcEncodeReferenceSlotPointerMode::Ffmpeg,
                ycbcr_views: parity.image_view == HevcEncodeImageViewMode::YcbcrConversion,
            },
        )
    }
}

/// What is recorded for a picture.
pub fn plan_hevc_encode_submit(
    config: &HevcEncodeSubmitExecutionConfig,
    modes: &HevcEncodeProbeModes,
) -> (r: Result<HevcEncodeSubmitPlan, String>)
    ensures
        match submit_plan(*config, *modes) {
            Ok(plan) => r == Ok::<HevcEncodeSubmitPlan, String>(plan),
            Err(e) => r matches Err(m) && m@ == e,
        },
{
    let (image_width, image_height): (u32, u32) = hevc_encode_image_extent(config)?;
    let parity = modes.parity;
    let (dst_buffer_range, dst_buffer_size): (u64, u64) = hevc_encode_dst_placement(
        config,
        &parity,
    )?;
    let selected = resolve_hevc_encode_probe_selected_rate_control_mode(
        modes.rate_control,
        config.rate_control_modes,
        config.max_rate_control_layers,
    );
    let qp: i32 = hevc_encode_probe_chosen_qp(selected, parity.constant_qp);
    let slice_qp_delta: i8 = match hevc_encode_probe_slice_qp_delta(
        qp,
        config.parameter_set_pps_init_qp_minus26,
    ) {
        Ok(delta) => delta,
        Err(e) => {
            return Err(e.concat(" for submit probe"));
        },
    };
    let coded: bool = modes.picture_resource_extent
        == HevcEncodeProbePictureResourceExtentMode::Coded;
    let source_coded: bool = parity.source_extent
        == HevcEncodeProbePictureResourceExtentMode::Coded;
    Ok(
        HevcEncodeSubmitPlan {
            image_width,
            image_height,
            picture_resource_coded_width: if coded { config.coded_width } else { image_width },
            picture_resource_coded_height: if coded { config.coded_height } else { image_height },
            source_coded_width: if source_coded { config.coded_width } else { image_width },
            source_coded_height: if source_coded { config.coded_height } else { image_height },
            dst_buffer_offset: parity.dst_prefix_bytes,
            dst_buffer_range,
            dst_buffer_size,
            selected_rate_control_mode: selected,
            selected_quality_level: match parity.quality_level {
                Some(level) => level,
                None => 0,
            },
            enable_quality_level_control: config.max_quality_levels > 0,
            picture_type: hevc_encode_probe_picture_type(modes.picture_info),
            slice_type: hevc_encode_probe_slice_type(modes.picture_info),
            temporal_id: hevc_encode_probe_temporal_id(modes.picture_info),
            pic_order_cnt_val: hevc_encode_probe_pic_order_cnt_val(modes.picture_info),
            constant_qp: qp,
            slice_qp_delta,
            reference_idx_minus1: hevc_encode_probe_reference_idx_minus1(modes.reference_index),
            reference_list_entry: hevc_encode_probe_reference_list_entry(modes.reference_list),
            reference_lists_given: modes.reference_list
                != HevcEncodeProbeReferenceListMode::NullPointers,
            reference_sets_given: modes.rps == HevcEncodeProbeRpsMode::EmptyStruct,
            is_reference: modes.picture_flags == HevcEncodeProbePictureFlagsMode::Default,
            slice_count: if modes.nalu == HevcEncodeProbeNaluMode::SingleSlice { 1 } else { 0 },
            begin_with_session_parameters: modes.begin_session_parameters
                == HevcEncodeProbeBeginSessionParametersMode::With,
            begin_with_reference_slot: modes.begin_reference_slot
                != HevcEncodeProbeBeginReferenceSlotMode::NoSlot,
            begin_slot_with_codec_info: modes.begin_reference_slot
                == HevcEncodeProbeBeginReferenceSlotMode::SlotMinusOne,
            begin_with_rate_control: parity.begin_next == HevcEncodeBeginNextMode::RateControl,
            setup_reference_slot: modes.setup_reference_slot
                == HevcEncodeProbeSetupReferenceSlotMode::SlotZero,
            dpb_barrier: parity.dpb_barrier == HevcEncodeDpbBarrierMode::With,
            reference_slots_have_address: parity.reference_slot_pointer
                == HevcEncodeReferenceSlotPointerMode::Ffmpeg,
            ycbcr_views: parity.image_view == HevcEncodeImageViewMode::YcbcrConversion,
        },
    )
}

// ---------------------------------------------------------------------------
// Texts

/// The sizes and formats.
pub open spec fn image_context(
    config: HevcEncodeSubmitExecutionConfig,
    modes: HevcEncodeProbeModes,
    plan: HevcEncodeSubmitPlan,
    picture_format_name: Seq<char>,
    reference_format_name: Seq<char>,
) -> Seq<char> {
    "encode_probe_inputs(coded="@ + decimal(config.coded_width as nat)
        + "x"@ + decimal(config.coded_height as nat)
        + ", image="@ + decimal(plan.image_width as nat)
        + "x"@ + decimal(plan.image_height as nat)
        + ", picture_resource_coded="@ + decimal(plan.picture_resource_coded_width as nat)
        + "x"@ + decimal(plan.picture_resource_coded_height as nat)
        + ", picture_resource_extent_mode="@ + modes.picture_resource_extent.label()
        + ", src_picture_resource="@ + decimal(plan.source_coded_width as nat)
        + "x"@ + decimal(plan.source_coded_height as nat)
        + ", picture_format="@ + picture_format_name
        + ", reference_picture_format="@ + reference_format_name
        + ", dst_offset="@ + decimal(plan.dst_buffer_offset as nat)
        + ", dst_range="@ + decimal(plan.dst_buffer_range as nat)
        + ", dst_prefix="@ + decimal(modes.parity.dst_prefix_bytes as nat)
        + ", dst_offset_align="@ + decimal(at_least_one(config.min_bitstream_buffer_offset_alignment as int) as nat)
        + ", dst_size_align="@ + decimal(at_least_one(config.min_bitstream_buffer_size_alignment as int) as nat)
}

fn image_context_text(
    config: &HevcEncodeSubmitExecutionConfig,
    modes: &HevcEncodeProbeModes,
    plan: &HevcEncodeSubmitPlan,
    picture_format_name: &str,
    reference_format_name: &str,
) -> (r: String)
    ensures
        r@ == image_context(*config, *modes, *plan, picture_format_name@, reference_format_name@),
{
    String::from_str("encode_probe_inputs(coded=")
        .concat(decimal_text(config.coded_width as u64).as_str()).concat("x")
        .concat(decimal_text(config.coded_height as u64).as_str()).concat(", image=")
        .concat(decimal_text(plan.image_width as u64).as_str()).concat("x")
        .concat(decimal_text(plan.image_height as u64).as_str()).concat(", picture_resource_coded=")
        .concat(decimal_text(plan.picture_resource_coded_width as u64).as_str()).concat("x")
        .concat(decimal_text(plan.picture_resource_coded_height as u64).as_str()).concat(", picture_resource_extent_mode=")
        .concat(hevc_encode_probe_picture_resource_extent_mode_label(modes.picture_resource_extent)).concat(", src_picture_resource=")
        .concat(decimal_text(plan.source_coded_width as u64).as_str()).concat("x")
        .concat(decimal_text(plan.source_coded_height as u64).as_str()).concat(", picture_format=")
        .concat(picture_format_name).concat(", reference_picture_format=")
        .concat(reference_format_name).concat(", dst_offset=")
        .concat(decimal_text(plan.dst_buffer_offset as u64).as_str()).concat(", dst_range=")
        .concat(decimal_text(plan.dst_buffer_range as u64).as_str()).concat(", dst_prefix=")
        .concat(decimal_text(modes.parity.dst_prefix_bytes).as_str()).concat(", dst_offset_align=")
        .concat(decimal_text(if config.min_bitstream_buffer_offset_alignment == 0 { 1 } else { config.min_bitstream_buffer_offset_alignment }).as_str()).concat(", dst_size_align=")
        .concat(decimal_text(if config.min_bitstream_buffer_size_alignment == 0 { 1 } else { config.min_bitstream_buffer_size_alignment }).as_str())
}

/// The parameter sets.
pub open spec fn parameter_context(
    config: HevcEncodeSubmitExecutionConfig,
    std_syntax_name: Seq<char>,
    parameter_feedback: Seq<char>,
) -> Seq<char> {
    ", parameter_mode="@ + config.parameter_mode.label()
        + ", parameter_set_ids=vps:"@ + decimal(config.parameter_set_ids.vps_id as nat)
        + "|sps:"@ + decimal(config.parameter_set_ids.sps_id as nat)
        + "|pps:"@ + decimal(config.parameter_set_ids.pps_id as nat)
        + ", parameter_set_coded="@ + decimal(config.parameter_set_coded_width as nat)
        + "x"@ + decimal(config.parameter_set_coded_height as nat)
        + ", parameter_set_coded_match="@ + bool_chars(config.parameter_set_coded_width == config.coded_width && config.parameter_set_coded_height == config.coded_height)
        + ", parameter_set_pps_init_qp_minus26="@ + signed_decimal(config.parameter_set_pps_init_qp_minus26 as int)
        + ", parameter_set_sao="@ + bool_chars(config.parameter_set_sample_adaptive_offset_enabled)
        + ", parameter_set_temporal_mvp="@ + bool_chars(config.parameter_set_sps_temporal_mvp_enabled)
        + ", std_syntax_flags="@ + std_syntax_name
        + ", parameter_feedback_probe="@ + parameter_feedback
}

fn parameter_context_text(
    config: &HevcEncodeSubmitExecutionConfig,
    std_syntax_name: &str,
    parameter_feedback: &str,
) -> (r: String)
    ensures
        r@ == parameter_context(*config, std_syntax_name@, parameter_feedback@),
{
    String::from_str(", parameter_mode=")
        .concat(hevc_encode_parameter_mode_label(config.parameter_mode)).concat(", parameter_set_ids=vps:")
        .concat(decimal_text(config.parameter_set_ids.vps_id as u64).as_str()).concat("|sps:")
        .concat(decimal_text(config.parameter_set_ids.sps_id as u64).as_str()).concat("|pps:")
        .concat(decimal_text(config.parameter_set_ids.pps_id as u64).as_str()).concat(", parameter_set_coded=")
        .concat(decimal_text(config.parameter_set_coded_width as u64).as_str()).concat("x")
        .concat(decimal_text(config.parameter_set_coded_height as u64).as_str()).concat(", parameter_set_coded_match=")
        .concat(bool_text(config.parameter_set_coded_width == config.coded_width && config.parameter_set_coded_height == config.coded_height)).concat(", parameter_set_pps_init_qp_minus26=")
        .concat(signed_text(config.parameter_set_pps_init_qp_minus26 as i64).as_str()).concat(", parameter_set_sao=")
        .concat(bool_text(config.parameter_set_sample_adaptive_offset_enabled)).concat(", parameter_set_temporal_mvp=")
        .concat(bool_text(config.parameter_set_sps_temporal_mvp_enabled)).concat(", std_syntax_flags=")
        .concat(std_syntax_name).concat(", parameter_feedback_probe=")
        .concat(parameter_feedback)
}

/// The modes.
pub open spec fn mode_context(
    modes: HevcEncodeProbeModes,
    plan: HevcEncodeSubmitPlan,
) -> Seq<char> {
    ", reference_list_mode="@ + modes.reference_list.label()
        + ", reference_idx_mode="@ + modes.reference_index.label()
        + ", reference_idx_minus1="@ + decimal(plan.reference_idx_minus1 as nat)
        + ", rps_mode="@ + modes.rps.label()
        + ", begin_reference_slot_mode="@ + modes.begin_reference_slot.label()
        + ", setup_reference_slot_mode="@ + modes.setup_reference_slot.label()
        + ", begin_session_parameters_mode="@ + modes.begin_session_parameters.label()
        + ", control_mode="@ + modes.control.label()
        + ", nalu_mode="@ + modes.nalu.label()
        + ", codec_info_mode="@ + modes.codec_info.label()
        + ", primary_mode="@ + modes.primary.label()
        + ", picture_flags_mode="@ + modes.picture_flags.label()
        + ", picture_info_mode="@ + modes.picture_info.label()
}

fn mode_context_text(
    modes: &HevcEncodeProbeModes,
    plan: &HevcEncodeSubmitPlan,
) -> (r: String)
    ensures
        r@ == mode_context(*modes, *plan),
{
    String::from_str(", reference_list_mode=")
        .concat(hevc_encode_probe_reference_list_mode_label(modes.reference_list)).concat(", reference_idx_mode=")
        .concat(hevc_encode_probe_reference_index_mode_label(modes.reference_index)).concat(", reference_idx_minus1=")
        .concat(decimal_text(plan.reference_idx_minus1 as u64).as_str()).concat(", rps_mode=")
        .concat(hevc_encode_probe_rps_mode_label(modes.rps)).concat(", begin_reference_slot_mode=")
        .concat(hevc_encode_probe_begin_reference_slot_mode_label(modes.begin_reference_slot)).concat(", setup_reference_slot_mode=")
        .concat(hevc_encode_probe_setup_reference_slot_mode_label(modes.setup_reference_slot)).concat(", begin_session_parameters_mode=")
        .concat(hevc_encode_probe_begin_session_parameters_mode_label(modes.begin_session_parameters)).concat(", control_mode=")
        .concat(hevc_encode_probe_control_mode_label(modes.control)).concat(", nalu_mode=")
        .concat(hevc_encode_probe_nalu_mode_label(modes.nalu)).concat(", codec_info_mode=")
        .concat(hevc_encode_probe_codec_info_mode_label(modes.codec_info)).concat(", primary_mode=")
        .concat(hevc_encode_primary_probe_mode_label(modes.primary)).concat(", picture_flags_mode=")
        .concat(hevc_encode_probe_picture_flags_mode_label(modes.picture_flags)).concat(", picture_info_mode=")
        .concat(hevc_encode_probe_picture_info_mode_label(modes.picture_info))
}

/// The values that follow from the modes.
pub open spec fn value_context(
    config: HevcEncodeSubmitExecutionConfig,
    modes: HevcEncodeProbeModes,
    plan: HevcEncodeSubmitPlan,
    rate_control_name: Seq<char>,
) -> Seq<char> {
    ", pic_order_cnt_val="@ + signed_decimal(plan.pic_order_cnt_val as int)
        + ", temporal_id="@ + decimal(plan.temporal_id as nat)
        + ", constant_qp="@ + signed_decimal(plan.constant_qp as int)
        + ", slice_qp_delta="@ + signed_decimal(plan.slice_qp_delta as int)
        + ", requested_rate_control_mode="@ + modes.rate_control.label()
        + ", rate_control_mode="@ + rate_control_name
        + ", max_rate_control_layers="@ + decimal(config.max_rate_control_layers as nat)
        + ", quality_level="@ + decimal(plan.selected_quality_level as nat)
        + ", quality_level_control="@ + bool_chars(plan.enable_quality_level_control)
        + ", maintenance1_mode="@ + config.maintenance1_mode.label()
        + ", maintenance1_feature_enabled="@ + bool_chars(config.maintenance1_feature_enabled)
        + ", session_dpb_mode="@ + config.session_dpb_mode.label()
        + ", session_max_dpb_slots="@ + decimal(config.session_max_dpb_slots as nat)
        + ", session_max_active_refs="@ + decimal(config.session_max_active_reference_pictures as nat)
}

fn value_context_text(
    config: &HevcEncodeSubmitExecutionConfig,
    modes: &HevcEncodeProbeModes,
    plan: &HevcEncodeSubmitPlan,
    rate_control_name: &str,
) -> (r: String)
    ensures
        r@ == value_context(*config, *modes, *plan, rate_control_name@),
{
    String::from_str(", pic_order_cnt_val=")
        .concat(signed_text(plan.pic_order_cnt_val as i64).as_str()).concat(", temporal_id=")
        .concat(decimal_text(plan.temporal_id as u64).as_str()).concat(", constant_qp=")
        .concat(signed_text(plan.constant_qp as i64).as_str()).concat(", slice_qp_delta=")
        .concat(signed_text(plan.slice_qp_delta as i64).as_str()).concat(", requested_rate_control_mode=")
        .concat(hevc_encode_probe_rate_control_mode_label(modes.rate_control)).concat(", rate_control_mode=")
        .concat(rate_control_name).concat(", max_rate_control_layers=")
        .concat(decimal_text(config.max_rate_control_layers as u64).as_str()).concat(", quality_level=")
        .concat(decimal_text(plan.selected_quality_level as u64).as_str()).concat(", quality_level_control=")
        .concat(bool_text(plan.enable_quality_level_control)).concat(", maintenance1_mode=")
        .concat(hevc_encode_probe_maintenance1_mode_label(config.maintenance1_mode)).concat(", maintenance1_feature_enabled=")
        .concat(bool_text(config.maintenance1_feature_enabled)).concat(", session_dpb_mode=")
        .concat(hevc_encode_probe_session_dpb_mode_label(config.session_dpb_mode)).concat(", session_max_dpb_slots=")
        .concat(decimal_text(config.session_max_dpb_slots as u64).as_str()).concat(", session_max_active_refs=")
        .concat(decimal_text(config.session_max_active_reference_pictures as u64).as_str())
}

/// All that a failing probe tells of its inputs, given the names of the formats,
/// the syntax flags and the rate control.
pub open spec fn probe_context(
    config: HevcEncodeSubmitExecutionConfig,
    modes: HevcEncodeProbeModes,
    plan: HevcEncodeSubmitPlan,
    picture_format_name: Seq<char>,
    reference_format_name: Seq<char>,
    std_syntax_name: Seq<char>,
    rate_control_name: Seq<char>,
    parameter_feedback: Seq<char>,
) -> Seq<char> {
    image_context(config, modes, plan, picture_format_name, reference_format_name)
        + parameter_context(config, std_syntax_name, parameter_feedback) + mode_context(modes, plan)
        + value_context(config, modes, plan, rate_control_name) + ")"@
}

pub fn hevc_encode_probe_context(
    config: &HevcEncodeSubmitExecutionConfig,
    modes: &HevcEncodeProbeModes,
    plan: &HevcEncodeSubmitPlan,
    picture_format_name: &str,
    reference_format_name: &str,
    std_syntax_name: &str,
    rate_control_name: &str,
    parameter_feedback: &str,
) -> (r: String)
    ensures
        r@ == probe_context(
            *config,
            *modes,
            *plan,
            picture_format_name@,
            reference_format_name@,
            std_syntax_name@,
            rate_control_name@,
            parameter_feedback@,
        ),
{
    image_context_text(config, modes, plan, picture_format_name, reference_format_name).concat(
        parameter_context_text(config, std_syntax_name, parameter_feedback).as_str(),
    ).concat(mode_context_text(modes, plan).as_str()).concat(
        value_context_text(config, modes, plan, rate_control_name).as_str(),
    ).concat(")")
}

/// All that a failing probe tells of its inputs.
pub fn describe_hevc_encode_probe(
    config: &HevcEncodeSubmitExecutionConfig,
    modes: &HevcEncodeProbeModes,
    plan: &HevcEncodeSubmitPlan,
    parameter_feedback: &Option<String>,
) -> (r: String)
    ensures
        r@ == probe_context(
            *config,
            *modes,
            *plan,
            format_name(config.picture_format),
            format_name(config.reference_picture_format),
            std_syntax_name(config.std_syntax_flags),
            match plan.selected_rate_control_mode {
                Some(mode) => rate_control_mode_name(mode),
                None => "none"@,
            },
            match *parameter_feedback {
                Some(text) => text@,
                None => "none"@,
            },
        ),
{
    let picture = format_name_text(config.picture_format);
    let reference = format_name_text(config.reference_picture_format);
    let syntax = std_syntax_name_text(config.std_syntax_flags);
    let rate = match plan.selected_rate_control_mode {
        Some(mode) => rate_control_mode_name_text(mode),
        None => String::from_str("none"),
    };
    let feedback: &str = match parameter_feedback {
        Some(text) => text.as_str(),
        None => "none",
    };
    hevc_encode_probe_context(
        config,
        modes,
        plan,
        picture.as_str(),
        reference.as_str(),
        syntax.as_str(),
        rate.as_str(),
        feedback,
    )
}

/// The message when the main recording of a mode fails.
pub fn primary_probe_failure(mode: HevcEncodePrimaryProbeMode, error: &str, context: &str) -> (r:
    String)
    ensures
        r@ == mode.label() + " primary probe failed: "@ + error@ + "; "@ + context@,
{
    String::from_str(hevc_encode_primary_probe_mode_label(mode)).concat(
        " primary probe failed: ",
    ).concat(error).concat("; ").concat(context)
}

/// How a trial recording went.
pub open spec fn trial_outcome(result: Result<(), String>) -> Seq<char> {
    match result {
        Ok(_) => "ok"@,
        Err(e) => "failed ("@ + e@ + ")"@,
    }
}

fn trial_outcome_text(result: &Result<(), String>) -> (r: String)
    ensures
        r@ == trial_outcome(*result),
{
    match result {
        Ok(_) => String::from_str("ok"),
        Err(e) => String::from_str("failed (").concat(e.as_str()).concat(")"),
    }
}

/// The message when the main recording cannot be finished, with how the trial
/// recordings went.
pub fn end_recording_failure(
    error: &str,
    context: &str,
    coding_scope: &Result<(), String>,
    pre_encode_scope: &Result<(), String>,
    pre_encode: &Result<(), String>,
    pre_encode_minimal: &Result<(), String>,
) -> (r: String)
    ensures
        r@ == "vkEndCommandBuffer failed: "@ + error@ + "; "@ + context@
            + "; coding_scope_probe="@ + trial_outcome(*coding_scope)
            + "; pre_encode_scope_probe="@ + trial_outcome(*pre_encode_scope)
            + "; pre_encode_probe="@ + trial_outcome(*pre_encode)
            + "; pre_encode_minimal_probe="@ + trial_outcome(*pre_encode_minimal),
{
    String::from_str("vkEndCommandBuffer failed: ").concat(error).concat("; ").concat(
        context,
    ).concat("; coding_scope_probe=").concat(trial_outcome_text(coding_scope).as_str()).concat(
        "; pre_encode_scope_probe=",
    ).concat(trial_outcome_text(pre_encode_scope).as_str()).concat("; pre_encode_probe=").concat(
        trial_outcome_text(pre_encode).as_str(),
    ).concat("; pre_encode_minimal_probe=").concat(
        trial_outcome_text(pre_encode_minimal).as_str(),
    )
}

// ---------------------------------------------------------------------------
// Trial recordings

/// What describes the picture of a trial recording.
#[derive(Debug, Clone, Copy, PartialEq, Eq, Structural)]
pub enum HevcTrialPicture {
    Described,
    EmptyDescription,
    NoDescription,
}

/// What a trial recording holds.
#[derive(Debug, Clone, Copy, PartialEq, Eq, Structural)]
pub struct HevcEncodeTrialPlan {
    /// Whether a picture is encoded at all.
    pub encodes: bool,
    /// Whether the picture is described for this codec.
    pub with_codec_info: bool,
    pub slice_count: u32,
    pub picture: HevcTrialPicture,
    pub reference_lists_given: bool,
    pub reference_sets_given: bool,
    pub setup_reference_slot: bool,
    pub constant_qp: i32,
    pub slice_qp_delta: i8,
    pub picture_type: u32,
    pub slice_type: u32,
    pub temporal_id: u8,
    pub pic_order_cnt_val: i32,
    pub reference_idx_minus1: u8,
    pub is_reference: bool,
}

/// What a trial recording holds in a mode.
pub open spec fn trial_plan(
    mode: HevcEncodePreEncodeProbeMode,
    modes: HevcEncodeProbeModes,
    selected: Option<u32>,
) -> HevcEncodeTrialPlan {
    let full = mode == HevcEncodePreEncodeProbeMode::WithEncode;
    let info = modes.codec_info;
    let slices = if modes.nalu == HevcEncodeProbeNaluMode::SingleSlice { 1u32 } else { 0u32 };
    HevcEncodeTrialPlan {
        encodes: mode != HevcEncodePreEncodeProbeMode::ScopeOnly,
        with_codec_info: info != HevcEncodeProbeCodecInfoMode::WithoutH265Info,
        slice_count: match info {
            HevcEncodeProbeCodecInfoMode::WithH265Info
            | HevcEncodeProbeCodecInfoMode::WithH265InfoEmptyStdPicture
            | HevcEncodeProbeCodecInfoMode::WithH265InfoNoStdPicture => slices,
            _ => 0,
        },
        picture: match info {
            HevcEncodeProbeCodecInfoMode::WithH265Info
            | HevcEncodeProbeCodecInfoMode::WithH265InfoStdPictureOnly => {
                HevcTrialPicture::Described
            },
            HevcEncodeProbeCodecInfoMode::WithH265InfoEmptyStdPicture => {
                HevcTrialPicture::EmptyDescription
            },
            _ => HevcTrialPicture::NoDescription,
        },
        reference_lists_given: full,
        reference_sets_given: full && modes.rps == HevcEncodeProbeRpsMode::EmptyStruct,
        setup_reference_slot: full && modes.setup_reference_slot
            == HevcEncodeProbeSetupReferenceSlotMode::SlotZero,
        constant_qp: chosen_qp(selected, modes.parity.constant_qp),
        slice_qp_delta: (chosen_qp(selected, modes.parity.constant_qp) - 26) as i8,
        picture_type: if inter(modes.picture_info) {
            0
        } else if modes.picture_info == HevcEncodeProbePictureInfoMode::IntraI {
            2
        } else {
            3
        },
        slice_type: if inter(modes.picture_info) { 1 } else { 2 },
        temporal_id: if modes.picture_info == HevcEncodeProbePictureInfoMode::Temporal1 {
            1
        } else {
            0
        },
        pic_order_cnt_val: if modes.picture_info == HevcEncodeProbePictureInfoMode::Poc1 {
            1
        } else {
            0
        },
        reference_idx_minus1: if modes.reference_index
            == HevcEncodeProbeReferenceIndexMode::Zero {
            0
        } else {
            255
        },
        is_reference: modes.picture_flags == HevcEncodeProbePictureFlagsMode::Default,
    }
}

pub fn plan_hevc_encode_trial(
    mode: HevcEncodePreEncodeProbeMode,
    modes: &HevcEncodeProbeModes,
    selected_rate_control_mode: Option<u32>,
) -> (r: HevcEncodeTrialPlan)
    ensures
        r == trial_plan(mode, *modes, selected_rate_control_mode),
{
    let full: bool = mode == HevcEncodePreEncodeProbeMode::WithEncode;
    let slices: u32 = if modes.nalu == HevcEncodeProbeNaluMode::SingleSlice { 1 } else { 0 };
    let qp: i32 = hevc_encode_probe_chosen_qp(
        selected_rate_control_mode,
        modes.parity.constant_qp,
    );
    let (with_codec_info, slice_count, picture): (bool, u32, HevcTrialPicture) =
        match modes.codec_info {
        HevcEncodeProbeCodecInfoMode::WithH265Info => (true, slices, HevcTrialPicture::Described),
        HevcEncodeProbeCodecInfoMode::WithH265InfoStdPictureOnly => (
            true,
            0,
            HevcTrialPicture::Described,
        ),
        HevcEncodeProbeCodecInfoMode::WithH265InfoEmptyStdPicture => (
            true,
            slices,
            HevcTrialPicture::EmptyDescription,
        ),
        HevcEncodeProbeCodecInfoMode::WithH265InfoMinimal => (
            true,
            0,
            HevcTrialPicture::NoDescription,
        ),
        HevcEncodeProbeCodecInfoMode::WithH265InfoNoStdPicture => (
            true,
            slices,
            HevcTrialPicture::NoDescription,
        ),
        HevcEncodeProbeCodecInfoMode::WithoutH265Info => (
            false,
            0,
            HevcTrialPicture::NoDescription,
        ),
    };
    HevcEncodeTrialPlan {
        encodes: mode != HevcEncodePreEncodeProbeMode::ScopeOnly,
        with_codec_info,
        slice_count,
        picture,
        reference_lists_given: full,
        reference_sets_given: full && modes.rps == HevcEncodeProbeRpsMode::EmptyStruct,
        setup_reference_slot: full && modes.setup_reference_slot
            == HevcEncodeProbeSetupReferenceSlotMode::SlotZero,
        constant_qp: qp,
        slice_qp_delta: (qp - 26) as i8,
        picture_type: hevc_encode_probe_picture_type(modes.picture_info),
        slice_type: hevc_encode_probe_slice_type(modes.picture_info),
        temporal_id: hevc_encode_probe_temporal_id(modes.picture_info),
        pic_order_cnt_val: hevc_encode_probe_pic_order_cnt_val(modes.picture_info),
        reference_idx_minus1: hevc_encode_probe_reference_idx_minus1(modes.reference_index),
        is_reference: modes.picture_flags == HevcEncodeProbePictureFlagsMode::Default,
    }
}

/// The message when a trial recording cannot be finished.
pub fn trial_end_failure(
    mode: HevcEncodePreEncodeProbeMode,
    picture_info: HevcEncodeProbePictureInfoMode,
    error: &str,
) -> (r: String)
    ensures
        r@ == "pre-encode probe ("@ + mode.label() + ", picture_info_mode="@ + picture_info.label()
            + ", pic_order_cnt_val="@ + signed_decimal(
            if picture_info == HevcEncodeProbePictureInfoMode::Poc1 { 1int } else { 0int },
        ) + ", temporal_id="@ + decimal(
            if picture_info == HevcEncodeProbePictureInfoMode::Temporal1 { 1nat } else { 0nat },
        ) + ") vkEndCommandBuffer failed: "@ + error@,
{
    String::from_str("pre-encode probe (").concat(
        hevc_encode_pre_encode_probe_mode_label(mode),
    ).concat(", picture_info_mode=").concat(
        hevc_encode_probe_picture_info_mode_label(picture_info),
    ).concat(", pic_order_cnt_val=").concat(
        signed_text(hevc_encode_probe_pic_order_cnt_val(picture_info) as i64).as_str(),
    ).concat(", temporal_id=").concat(
        decimal_text(hevc_encode_probe_temporal_id(picture_info) as u64).as_str(),
    ).concat(") vkEndCommandBuffer failed: ").concat(error)
}

// ---------------------------------------------------------------------------
// Outcomes

#[derive(Debug, Clone)]
pub enum HevcEncodeSubmitExecutionProbe {
    Ready {
        queue_family_index: u32,
        bitstream_buffer_offset: u32,
        bytes_written: u32,
        head16: String,
    },
    Failed(String),
    Skipped(String),
}

/// What the device reports of an encoded picture.
#[derive(Debug, Clone, Copy, PartialEq, Eq, Structural)]
pub struct HevcEncodeFeedbackQueryResult {
    pub offset: u32,
    pub bytes_written: u32,
    pub complete: bool,
}

impl Default for HevcEncodeFeedbackQueryResult {
    fn default() -> (r: Self)
        ensures
            r.offset == 0 && r.bytes_written == 0 && !r.complete,
    {
        HevcEncodeFeedbackQueryResult { offset: 0, bytes_written: 0, complete: false }
    }
}

/// How many bytes of the result are shown.
pub fn hevc_encode_head_len(bytes_written: u32) -> (r: u32)
    ensures
        r == (if bytes_written < 16 { bytes_written } else { 16u32 }),
{
    if bytes_written < 16 { bytes_written } else { 16 }
}

/// The first bytes of a result, at most sixteen.
pub fn hevc_encode_head_text(bytes: &[u8]) -> (r: String)
    ensures
        r@ == hex_bytes(if bytes@.len() <= 16 { bytes@ } else { bytes@.take(16) }),
{
    if bytes.len() <= 16 {
        hex_text(bytes)
    } else {
        let head = slice_subrange(bytes, 0, 16);
        assert(head@ =~= bytes@.take(16));
        hex_text(head)
    }
}

/// What the device makes of the parameter sets, as one line.
pub fn parameter_feedback_summary(
    result: &str,
    reported_size: usize,
    data: &[u8],
    has_overrides: bool,
    vps_overrides: bool,
    sps_overrides: bool,
    pps_overrides: bool,
) -> (r: String)
    ensures
        r@ == "result="@ + result@ + ", size="@ + decimal(
            if reported_size < data@.len() { reported_size as nat } else { data@.len() },
        ) + ", has_overrides="@ + bool_chars(has_overrides) + ", vps_overrides="@ + bool_chars(
            vps_overrides,
        ) + ", sps_overrides="@ + bool_chars(sps_overrides) + ", pps_overrides="@ + bool_chars(
            pps_overrides,
        ) + ", head16="@ + hex_bytes(if data@.len() <= 16 { data@ } else { data@.take(16) }),
{
    let used: usize = if reported_size < data.len() { reported_size } else { data.len() };
    String::from_str("result=").concat(result).concat(", size=").concat(
        size_text(used).as_str(),
    ).concat(", has_overrides=").concat(bool_text(has_overrides)).concat(
        ", vps_overrides=",
    ).concat(bool_text(vps_overrides)).concat(", sps_overrides=").concat(
        bool_text(sps_overrides),
    ).concat(", pps_overrides=").concat(bool_text(pps_overrides)).concat(", head16=").concat(
        hevc_encode_head_text(data).as_str(),
    )
}

/// How a probe ended, given what its steps came to.
pub fn finish_hevc_encode_submit(
    queue_family_index: u32,
    result: Result<(), String>,
    feedback: HevcEncodeFeedbackQueryResult,
    head16: String,
    messages: &ValidationMessages,
) -> (r: HevcEncodeSubmitExecutionProbe)
    ensures
        match result {
            Ok(_) => r matches HevcEncodeSubmitExecutionProbe::Ready {
                queue_family_index: q,
                bitstream_buffer_offset,
                bytes_written,
                head16: h,
            } && q == queue_family_index && bitstream_buffer_offset == feedback.offset
                && bytes_written == feedback.bytes_written && h == head16,
            Err(e) => r matches HevcEncodeSubmitExecutionProbe::Failed(m) && m@ == (
            if messages.held().len() == 0 {
                e@
            } else {
                e@ + "; validation_messages="@ + joined(
                    super::encode::last_items(messages.held(), 3),
                    " | "@,
                )
            }),
        },
{
    match result {
        Ok(_) => HevcEncodeSubmitExecutionProbe::Ready {
            queue_family_index,
            bitstream_buffer_offset: feedback.offset,
            bytes_written: feedback.bytes_written,
            head16,
        },
        Err(e) => HevcEncodeSubmitExecutionProbe::Failed(messages.append_to(e)),
    }
}

} // verus!
