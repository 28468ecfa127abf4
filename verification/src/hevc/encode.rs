//! Single decisions of the HEVC encode probe.

use super::modes::{
    HevcEncodeParameterMode, HevcEncodeProbeMaintenance1Mode, HevcEncodeProbePictureInfoMode,
    HevcEncodeProbeRateControlMode, HevcEncodeProbeReferenceIndexMode,
    HevcEncodeProbeReferenceListMode, HevcEncodeProbeSessionDpbMode,
};
use super::parity::HevcEncodeVuiSafety;
use crate::text::{decimal, decimal_text, join_text, joined, signed_decimal};
use crate::text::{signed_text, trimmed, views};
use crate::vulkan::{contains_flags, has_flags, is_listed, listed};
use vstd::prelude::*;
use vstd::string::*;

verus! {

/// No rate control.
pub const RATE_CONTROL_DISABLED: u32 = 1;

/// Constant bitrate.
pub const RATE_CONTROL_CBR: u32 = 2;

/// Variable bitrate.
pub const RATE_CONTROL_VBR: u32 = 4;

/// The entry of a reference list that names no picture.
pub const HEVC_NO_REFERENCE_PICTURE: u8 = 255;

pub const H265_PICTURE_TYPE_P: u32 = 0;

pub const H265_PICTURE_TYPE_I: u32 = 2;

pub const H265_PICTURE_TYPE_IDR: u32 = 3;

pub const H265_SLICE_TYPE_P: u32 = 1;

pub const H265_SLICE_TYPE_I: u32 = 2;

// ---------------------------------------------------------------------------
// Extensions

#[derive(Debug, Clone, Copy, PartialEq, Eq, Structural)]
pub struct ExtensionFlags {
    pub has_video_queue: bool,
    pub has_video_encode_queue: bool,
    pub has_video_encode_h265: bool,
    pub has_video_maintenance1: bool,
}

impl Default for ExtensionFlags {
    fn default() -> (r: Self)
        ensures
            !r.has_video_queue && !r.has_video_encode_queue && !r.has_video_encode_h265
                && !r.has_video_maintenance1,
    {
        ExtensionFlags {
            has_video_queue: false,
            has_video_encode_queue: false,
            has_video_encode_h265: false,
            has_video_maintenance1: false,
        }
    }
}

impl ExtensionFlags {
    pub open spec fn complete(self) -> bool {
        self.has_video_queue && self.has_video_encode_queue && self.has_video_encode_h265
    }

    /// What either has.
    pub open spec fn joined_with(self, other: Self) -> Self {
        ExtensionFlags {
            has_video_queue: self.has_video_queue || other.has_video_queue,
            has_video_encode_queue: self.has_video_encode_queue || other.has_video_encode_queue,
            has_video_encode_h265: self.has_video_encode_h265 || other.has_video_encode_h265,
            has_video_maintenance1: self.has_video_maintenance1 || other.has_video_maintenance1,
        }
    }

    /// The names of the needed extensions that are not there.
    pub open spec fn missing(self) -> Seq<Seq<char>> {
        let first = if self.has_video_queue { Seq::empty() } else { seq!["VK_KHR_video_queue"@] };
        let second = if self.has_video_encode_queue {
            first
        } else {
            first.push("VK_KHR_video_encode_queue"@)
        };
        if self.has_video_encode_h265 { second } else { second.push("VK_KHR_video_encode_h265"@) }
    }

    /// What a device offers, given the names of its extensions.
    pub fn from_names(names: &Vec<String>) -> (r: Self)
        ensures
            r.has_video_queue == listed(names@, "VK_KHR_video_queue"@),
            r.has_video_encode_queue == listed(names@, "VK_KHR_video_encode_queue"@),
            r.has_video_encode_h265 == listed(names@, "VK_KHR_video_encode_h265"@),
            r.has_video_maintenance1 == listed(names@, "VK_KHR_video_maintenance1"@),
    {
        ExtensionFlags {
            has_video_queue: is_listed(names, "VK_KHR_video_queue"),
            has_video_encode_queue: is_listed(names, "VK_KHR_video_encode_queue"),
            has_video_encode_h265: is_listed(names, "VK_KHR_video_encode_h265"),
            has_video_maintenance1: is_listed(names, "VK_KHR_video_maintenance1"),
        }
    }

    pub fn supports_hevc_encode(self) -> (r: bool)
        ensures
            r == self.complete(),
    {
        self.has_video_queue && self.has_video_encode_queue && self.has_video_encode_h265
    }

    pub fn union_assign(&mut self, other: Self)
        ensures
            *final(self) == old(self).joined_with(other),
    {
        self.has_video_queue = self.has_video_queue || other.has_video_queue;
        self.has_video_encode_queue = self.has_video_encode_queue || other.has_video_encode_queue;
        self.has_video_encode_h265 = self.has_video_encode_h265 || other.has_video_encode_h265;
        self.has_video_maintenance1 = self.has_video_maintenance1 || other.has_video_maintenance1;
    }

    pub fn missing_extensions(self) -> (r: Vec<String>)
        ensures
            views(r@) == self.missing(),
    {
        let mut out: Vec<String> = Vec::new();
        if !self.has_video_queue {
            out.push(String::from_str("VK_KHR_video_queue"));
        }
        if !self.has_video_encode_queue {
            out.push(String::from_str("VK_KHR_video_encode_queue"));
        }
        if !self.has_video_encode_h265 {
            out.push(String::from_str("VK_KHR_video_encode_h265"));
        }
        assert(views(out@) =~= self.missing());
        out
    }
}

// ---------------------------------------------------------------------------
// Values that follow from modes

/// How many pictures a session keeps and how many it may refer to.
pub fn resolve_hevc_encode_probe_session_dpb_limits(
    mode: HevcEncodeProbeSessionDpbMode,
    capability_max_dpb_slots: u32,
    capability_max_active_reference_pictures: u32,
) -> (r: (u32, u32))
    ensures
        r == (match mode {
            HevcEncodeProbeSessionDpbMode::Default => (
                if capability_max_dpb_slots == 0 { 1u32 } else { capability_max_dpb_slots },
                if capability_max_active_reference_pictures == 0 {
                    1u32
                } else {
                    capability_max_active_reference_pictures
                },
            ),
            HevcEncodeProbeSessionDpbMode::MinimalOne => (1u32, 1u32),
        }),
{
    match mode {
        HevcEncodeProbeSessionDpbMode::Default => (
            if capability_max_dpb_slots == 0 { 1 } else { capability_max_dpb_slots },
            if capability_max_active_reference_pictures == 0 {
                1
            } else {
                capability_max_active_reference_pictures
            },
        ),
        HevcEncodeProbeSessionDpbMode::MinimalOne => (1, 1),
    }
}

pub fn resolve_hevc_encode_probe_maintenance1_feature_enabled(
    mode: HevcEncodeProbeMaintenance1Mode,
    extension_available: bool,
    feature_supported: bool,
) -> (r: bool)
    ensures
        r == (mode != HevcEncodeProbeMaintenance1Mode::Off && extension_available
            && feature_supported),
{
    match mode {
        HevcEncodeProbeMaintenance1Mode::Auto | HevcEncodeProbeMaintenance1Mode::On => {
            extension_available && feature_supported
        },
        HevcEncodeProbeMaintenance1Mode::Off => false,
    }
}

/// The first of disabled, constant and variable bitrate that is available. Bitrates
/// need a layer.
pub open spec fn automatic_rate_control(modes: u32, layers: u32) -> Option<u32> {
    if has_flags(modes, 1) {
        Some(1)
    } else if layers == 0 {
        None
    } else if has_flags(modes, 2) {
        Some(2)
    } else if has_flags(modes, 4) {
        Some(4)
    } else {
        None
    }
}

pub fn select_hevc_encode_rate_control_mode(modes: u32, max_rate_control_layers: u32) -> (r: Option<
    u32,
>)
    ensures
        r == automatic_rate_control(modes, max_rate_control_layers),
{
    if contains_flags(modes, RATE_CONTROL_DISABLED) {
        return Some(RATE_CONTROL_DISABLED);
    }
    if max_rate_control_layers == 0 {
        return None;
    }
    if contains_flags(modes, RATE_CONTROL_CBR) {
        return Some(RATE_CONTROL_CBR);
    }
    if contains_flags(modes, RATE_CONTROL_VBR) {
        return Some(RATE_CONTROL_VBR);
    }
    None
}

/// The rate control that a request comes to.
pub open spec fn chosen_rate_control(
    requested: HevcEncodeProbeRateControlMode,
    modes: u32,
    layers: u32,
) -> Option<u32> {
    match requested {
        HevcEncodeProbeRateControlMode::Auto => automatic_rate_control(modes, layers),
        HevcEncodeProbeRateControlMode::Disabled => if has_flags(modes, 1) {
            Some(1)
        } else {
            None
        },
        HevcEncodeProbeRateControlMode::Cbr => if layers > 0 && has_flags(modes, 2) {
            Some(2)
        } else {
            None
        },
        HevcEncodeProbeRateControlMode::Vbr => if layers > 0 && has_flags(modes, 4) {
            Some(4)
        } else {
            None
        },
        HevcEncodeProbeRateControlMode::NoRateControl => None,
    }
}

/// A rate control that is chosen is available, and one with a bitrate has a layer.
pub proof fn law_chosen_rate_control_is_available(
    requested: HevcEncodeProbeRateControlMode,
    modes: u32,
    layers: u32,
)
    ensures
        chosen_rate_control(requested, modes, layers) matches Some(mode) ==> has_flags(modes, mode)
            && (mode == 1 || mode == 2 || mode == 4) && (mode != 1 ==> layers > 0),
{
}

pub fn resolve_hevc_encode_probe_selected_rate_control_mode(
    requested_mode: HevcEncodeProbeRateControlMode,
    available_modes: u32,
    max_rate_control_layers: u32,
) -> (r: Option<u32>)
    ensures
        r == chosen_rate_control(requested_mode, available_modes, max_rate_control_layers),
{
    match requested_mode {
        HevcEncodeProbeRateControlMode::Auto => select_hevc_encode_rate_control_mode(
            available_modes,
            max_rate_control_layers,
        ),
        HevcEncodeProbeRateControlMode::Disabled => {
            if contains_flags(available_modes, RATE_CONTROL_DISABLED) {
                Some(RATE_CONTROL_DISABLED)
            } else {
                None
            }
        },
        HevcEncodeProbeRateControlMode::Cbr => {
            if max_rate_control_layers > 0 && contains_flags(available_modes, RATE_CONTROL_CBR) {
                Some(RATE_CONTROL_CBR)
            } else {
                None
            }
        },
        HevcEncodeProbeRateControlMode::Vbr => {
            if max_rate_control_layers > 0 && contains_flags(available_modes, RATE_CONTROL_VBR) {
                Some(RATE_CONTROL_VBR)
            } else {
                None
            }
        },
        HevcEncodeProbeRateControlMode::NoRateControl => None,
    }
}

/// A picture that refers to others.
pub open spec fn inter(mode: HevcEncodeProbePictureInfoMode) -> bool {
    mode == HevcEncodeProbePictureInfoMode::InterP || mode == HevcEncodeProbePictureInfoMode::Poc1
}

pub fn hevc_encode_probe_picture_type(mode: HevcEncodeProbePictureInfoMode) -> (r: u32)
    ensures
        r == (if inter(mode) {
            0u32
        } else if mode == HevcEncodeProbePictureInfoMode::IntraI {
            2u32
        } else {
            3u32
        }),
{
    match mode {
        HevcEncodeProbePictureInfoMode::Default | HevcEncodeProbePictureInfoMode::Temporal1 => {
            H265_PICTURE_TYPE_IDR
        },
        HevcEncodeProbePictureInfoMode::IntraI => H265_PICTURE_TYPE_I,
        HevcEncodeProbePictureInfoMode::InterP | HevcEncodeProbePictureInfoMode::Poc1 => {
            H265_PICTURE_TYPE_P
        },
    }
}

pub fn hevc_encode_probe_slice_type(mode: HevcEncodeProbePictureInfoMode) -> (r: u32)
    ensures
        r == (if inter(mode) { 1u32 } else { 2u32 }),
{
    match mode {
        HevcEncodeProbePictureInfoMode::InterP | HevcEncodeProbePictureInfoMode::Poc1 => {
            H265_SLICE_TYPE_P
        },
        HevcEncodeProbePictureInfoMode::Default | HevcEncodeProbePictureInfoMode::IntraI
        | HevcEncodeProbePictureInfoMode::Temporal1 => H265_SLICE_TYPE_I,
    }
}

pub fn hevc_encode_probe_temporal_id(mode: HevcEncodeProbePictureInfoMode) -> (r: u8)
    ensures
        r == (if mode == HevcEncodeProbePictureInfoMode::Temporal1 { 1u8 } else { 0u8 }),
{
    match mode {
        HevcEncodeProbePictureInfoMode::Temporal1 => 1,
        _ => 0,
    }
}

pub fn hevc_encode_probe_pic_order_cnt_val(mode: HevcEncodeProbePictureInfoMode) -> (r: i32)
    ensures
        r == (if mode == HevcEncodeProbePictureInfoMode::Poc1 { 1i32 } else { 0i32 }),
{
    match mode {
        HevcEncodeProbePictureInfoMode::Poc1 => 1,
        _ => 0,
    }
}

/// The quantizer of every slice: 26 without rate control, and 0 under one.
pub open spec fn constant_qp(selected: Option<u32>) -> i32 {
    match selected {
        Some(mode) => if mode != 1 { 0 } else { 26 },
        None => 26,
    }
}

pub fn hevc_encode_probe_constant_qp(selected_rate_control_mode: Option<u32>) -> (r: i32)
    ensures
        r == constant_qp(selected_rate_control_mode),
{
    match selected_rate_control_mode {
        Some(mode) => if mode != RATE_CONTROL_DISABLED { 0 } else { 26 },
        None => 26,
    }
}

/// The quantizer of every slice where one may be set by hand: without rate control it
/// is the one that is set, if a slice can have it.
pub open spec fn chosen_qp(selected: Option<u32>, set: Option<u32>) -> i32 {
    match set {
        Some(qp) => if qp <= 51 && constant_qp(selected) != 0 {
            qp as i32
        } else {
            constant_qp(selected)
        },
        None => constant_qp(selected),
    }
}

pub fn hevc_encode_probe_chosen_qp(
    selected_rate_control_mode: Option<u32>,
    set: Option<u32>,
) -> (r: i32)
    ensures
        r == chosen_qp(selected_rate_control_mode, set),
        0 <= r <= 51,
{
    let plain: i32 = hevc_encode_probe_constant_qp(selected_rate_control_mode);
    match set {
        Some(qp) => if qp <= 51 && plain != 0 { qp as i32 } else { plain },
        None => plain,
    }
}

/// The distance of a quantizer from the one that the picture starts with.
pub open spec fn qp_delta(constant_qp: i32, pps_init_qp_minus26: i8) -> int {
    constant_qp - (pps_init_qp_minus26 + 26)
}

pub open spec fn qp_delta_message(constant_qp: i32, pps_init_qp_minus26: i8) -> Seq<char> {
    "slice_qp_delta is out of range for constant_qp="@ + signed_decimal(constant_qp as int)
        + ", pps_init_qp_minus26="@ + signed_decimal(pps_init_qp_minus26 as int)
}

pub fn hevc_encode_probe_slice_qp_delta(constant_qp: i32, pps_init_qp_minus26: i8) -> (r: Result<
    i8,
    String,
>)
    requires
        i32::MIN <= qp_delta(constant_qp, pps_init_qp_minus26) <= i32::MAX,
    ensures
        match r {
            Ok(delta) => delta == qp_delta(constant_qp, pps_init_qp_minus26),
            Err(m) => !(-128 <= qp_delta(constant_qp, pps_init_qp_minus26) <= 127) && m@
                == qp_delta_message(constant_qp, pps_init_qp_minus26),
        },
{
    let pps_init_qp: i32 = pps_init_qp_minus26 as i32 + 26;
    let delta: i32 = constant_qp - pps_init_qp;
    if delta < -128 || delta > 127 {
        return Err(
            String::from_str("slice_qp_delta is out of range for constant_qp=").concat(
                signed_text(constant_qp as i64).as_str(),
            ).concat(", pps_init_qp_minus26=").concat(
                signed_text(pps_init_qp_minus26 as i64).as_str(),
            ),
        );
    }
    Ok(delta as i8)
}

pub fn hevc_encode_probe_reference_idx_minus1(mode: HevcEncodeProbeReferenceIndexMode) -> (r: u8)
    ensures
        r == (match mode {
            HevcEncodeProbeReferenceIndexMode::MinusOne => 255u8,
            HevcEncodeProbeReferenceIndexMode::Zero => 0u8,
        }),
{
    match mode {
        HevcEncodeProbeReferenceIndexMode::MinusOne => 255,
        HevcEncodeProbeReferenceIndexMode::Zero => 0,
    }
}

/// What the unused entries of the reference lists hold.
pub fn hevc_encode_probe_reference_list_entry(mode: HevcEncodeProbeReferenceListMode) -> (r: u8)
    ensures
        r == (if mode == HevcEncodeProbeReferenceListMode::Zero { 0u8 } else { 255u8 }),
{
    match mode {
        HevcEncodeProbeReferenceListMode::Zero => 0,
        _ => HEVC_NO_REFERENCE_PICTURE,
    }
}

/// The flags of a slice segment header; those that are not listed are clear.
#[derive(Debug, Clone, Copy, PartialEq, Eq, Structural)]
pub struct HevcSliceSegmentHeaderFlags {
    pub first_slice_segment_in_pic_flag: bool,
    pub dependent_slice_segment_flag: bool,
    pub slice_sao_luma_flag: bool,
    pub slice_sao_chroma_flag: bool,
    pub num_ref_idx_active_override_flag: bool,
    pub mvd_l1_zero_flag: bool,
    pub cabac_init_flag: bool,
    pub cu_chroma_qp_offset_enabled_flag: bool,
    pub deblocking_filter_override_flag: bool,
    pub slice_deblocking_filter_disabled_flag: bool,
    pub collocated_from_l0_flag: bool,
    pub slice_loop_filter_across_slices_enabled_flag: bool,
}

pub fn hevc_encode_std_slice_segment_header_flags(sample_adaptive_offset_enabled: bool) -> (r:
    HevcSliceSegmentHeaderFlags)
    ensures
        r == (HevcSliceSegmentHeaderFlags {
            first_slice_segment_in_pic_flag: true,
            dependent_slice_segment_flag: false,
            slice_sao_luma_flag: sample_adaptive_offset_enabled,
            slice_sao_chroma_flag: sample_adaptive_offset_enabled,
            num_ref_idx_active_override_flag: false,
            mvd_l1_zero_flag: false,
            cabac_init_flag: false,
            cu_chroma_qp_offset_enabled_flag: false,
            deblocking_filter_override_flag: false,
            slice_deblocking_filter_disabled_flag: false,
            collocated_from_l0_flag: true,
            slice_loop_filter_across_slices_enabled_flag: false,
        }),
{
    HevcSliceSegmentHeaderFlags {
        first_slice_segment_in_pic_flag: true,
        dependent_slice_segment_flag: false,
        slice_sao_luma_flag: sample_adaptive_offset_enabled,
        slice_sao_chroma_flag: sample_adaptive_offset_enabled,
        num_ref_idx_active_override_flag: false,
        mvd_l1_zero_flag: false,
        cabac_init_flag: false,
        cu_chroma_qp_offset_enabled_flag: false,
        deblocking_filter_override_flag: false,
        slice_deblocking_filter_disabled_flag: false,
        collocated_from_l0_flag: true,
        slice_loop_filter_across_slices_enabled_flag: false,
    }
}

pub const H265_RATE_CONTROL_REGULAR_GOP: u32 = 2;

pub const H265_RATE_CONTROL_REFERENCE_PATTERN_FLAT: u32 = 4;

/// The structure of the coded sequence that rate control is told.
#[derive(Debug, Clone, Copy, PartialEq, Eq, Structural)]
pub struct HevcRateControlInfo {
    pub flags: u32,
    pub gop_frame_count: u32,
    pub idr_period: u32,
    pub consecutive_b_frame_count: u32,
    pub sub_layer_count: u32,
}

pub fn hevc_encode_h265_rate_control_info() -> (r: HevcRateControlInfo)
    ensures
        r == (HevcRateControlInfo {
            flags: 6,
            gop_frame_count: 30,
            idr_period: 30,
            consecutive_b_frame_count: 0,
            sub_layer_count: 0,
        }),
{
    assert(H265_RATE_CONTROL_REFERENCE_PATTERN_FLAT | H265_RATE_CONTROL_REGULAR_GOP == 6)
        by (bit_vector);
    HevcRateControlInfo {
        flags: H265_RATE_CONTROL_REFERENCE_PATTERN_FLAT | H265_RATE_CONTROL_REGULAR_GOP,
        gop_frame_count: 30,
        idr_period: 30,
        consecutive_b_frame_count: 0,
        sub_layer_count: 0,
    }
}

// ---------------------------------------------------------------------------
// Parameter sets

/// Which of the video, sequence and picture parameter sets a session is given.
pub open spec fn add_info_filter(mode: HevcEncodeParameterMode) -> Option<(bool, bool, bool)> {
    match mode {
        HevcEncodeParameterMode::Sample => Some((true, true, true)),
        HevcEncodeParameterMode::SampleVpsOnly => Some((true, false, false)),
        HevcEncodeParameterMode::SamplePpsOnly => Some((false, false, true)),
        HevcEncodeParameterMode::SampleNoAddInfo | HevcEncodeParameterMode::EmptyTemplate => None,
        _ => Some((false, true, false)),
    }
}

pub fn hevc_encode_parameter_mode_add_info_filter(mode: HevcEncodeParameterMode) -> (r: Option<
    (bool, bool, bool),
>)
    ensures
        r == add_info_filter(mode),
{
    match mode {
        HevcEncodeParameterMode::Sample => Some((true, true, true)),
        HevcEncodeParameterMode::SampleNoAddInfo => None,
        HevcEncodeParameterMode::SampleVpsOnly => Some((true, false, false)),
        HevcEncodeParameterMode::SampleSpsOnly | HevcEncodeParameterMode::SampleSpsNoVui
        | HevcEncodeParameterMode::SampleSpsVuiFlagOff
        | HevcEncodeParameterMode::SampleSpsNoVuiFlagOn
        | HevcEncodeParameterMode::SampleSpsNoRps | HevcEncodeParameterMode::SampleSpsSafeFlags
        | HevcEncodeParameterMode::SampleSpsLevel
        | HevcEncodeParameterMode::SampleSpsSubLayerOrdering
        | HevcEncodeParameterMode::SampleSpsLevelOrdering => Some((false, true, false)),
        HevcEncodeParameterMode::SamplePpsOnly => Some((false, false, true)),
        HevcEncodeParameterMode::EmptyTemplate => None,
    }
}

/// A given sample whose sequence parameter set has usability information is used
/// without announcing it.
pub fn resolve_hevc_encode_parameter_mode_with_vui_safety(
    requested_mode: HevcEncodeParameterMode,
    sample_override_enabled: bool,
    sample_has_vui_parameters: bool,
) -> (r: HevcEncodeParameterMode)
    ensures
        r == (if sample_override_enabled && sample_has_vui_parameters && requested_mode
            == HevcEncodeParameterMode::Sample {
            HevcEncodeParameterMode::SampleSpsVuiFlagOff
        } else {
            requested_mode
        }),
{
    match requested_mode {
        HevcEncodeParameterMode::Sample => if sample_override_enabled && sample_has_vui_parameters {
            HevcEncodeParameterMode::SampleSpsVuiFlagOff
        } else {
            requested_mode
        },
        _ => requested_mode,
    }
}

/// The mode that a request comes to for a sample.
pub open spec fn effective_mode(
    requested: HevcEncodeParameterMode,
    safety: HevcEncodeVuiSafety,
    sample_given: bool,
    has_vui: bool,
) -> HevcEncodeParameterMode {
    let unannounced = match safety {
        HevcEncodeVuiSafety::Auto => sample_given && has_vui,
        HevcEncodeVuiSafety::Preserve => false,
        HevcEncodeVuiSafety::ForceOff => true,
    };
    if unannounced && requested == HevcEncodeParameterMode::Sample {
        HevcEncodeParameterMode::SampleSpsVuiFlagOff
    } else {
        requested
    }
}

pub fn resolve_hevc_encode_parameter_mode_for_sample(
    requested_mode: HevcEncodeParameterMode,
    safety: HevcEncodeVuiSafety,
    sample_override_enabled: bool,
    sample_has_vui_parameters: bool,
) -> (r: HevcEncodeParameterMode)
    ensures
        r == effective_mode(
            requested_mode,
            safety,
            sample_override_enabled,
            sample_has_vui_parameters,
        ),
{
    match safety {
        HevcEncodeVuiSafety::Auto => resolve_hevc_encode_parameter_mode_with_vui_safety(
            requested_mode,
            sample_override_enabled,
            sample_has_vui_parameters,
        ),
        HevcEncodeVuiSafety::Preserve => requested_mode,
        HevcEncodeVuiSafety::ForceOff => resolve_hevc_encode_parameter_mode_with_vui_safety(
            requested_mode,
            true,
            true,
        ),
    }
}

/// What the announcement of usability information is changed to, if it is changed.
pub fn apply_hevc_encode_parameter_mode_std_overrides(mode: HevcEncodeParameterMode) -> (r: Option<
    bool,
>)
    ensures
        r == (match mode {
            HevcEncodeParameterMode::SampleSpsVuiFlagOff => Some(false),
            HevcEncodeParameterMode::SampleSpsNoVuiFlagOn => Some(true),
            _ => None,
        }),
{
    match mode {
        HevcEncodeParameterMode::SampleSpsVuiFlagOff => Some(false),
        HevcEncodeParameterMode::SampleSpsNoVuiFlagOn => Some(true),
        _ => None,
    }
}

/// The parts of a sequence parameter set that modes change.
#[derive(Debug, Clone, PartialEq, Eq)]
pub struct HevcSequenceParameters {
    pub profile_idc: u8,
    pub level_idc: Option<u8>,
    pub has_vui_parameters: bool,
    pub amp_enabled_flag: bool,
    pub sample_adaptive_offset_enabled_flag: bool,
    pub sps_temporal_mvp_enabled_flag: bool,
    pub strong_intra_smoothing_enabled_flag: bool,
    pub short_term_ref_pic_set_count: usize,
    pub max_dec_pic_buffering_minus1: Vec<u64>,
    pub max_num_reorder_pics: Vec<u64>,
    pub max_latency_increase_plus1: Vec<u32>,
}

/// A list of the same length that holds one value throughout.
pub open spec fn all_same<T>(len: nat, value: T) -> Seq<T> {
    Seq::new(len, |i: int| value)
}

fn fill_u64(list: &mut Vec<u64>, value: u64)
    ensures
        final(list)@ == all_same(old(list)@.len(), value),
{
    let mut i: usize = 0;
    let n: usize = list.len();
    while i < n
        invariant
            i <= n,
            n == list@.len(),
            n == old(list)@.len(),
            forall|k: int| 0 <= k < i ==> list@[k] == value,
        decreases n - i,
    {
        list.set(i, value);
        i = i + 1;
    }
    assert(list@ =~= all_same(old(list)@.len(), value));
}

fn fill_u32(list: &mut Vec<u32>, value: u32)
    ensures
        final(list)@ == all_same(old(list)@.len(), value),
{
    let mut i: usize = 0;
    let n: usize = list.len();
    while i < n
        invariant
            i <= n,
            n == list@.len(),
            n == old(list)@.len(),
            forall|k: int| 0 <= k < i ==> list@[k] == value,
        decreases n - i,
    {
        list.set(i, value);
        i = i + 1;
    }
    assert(list@ =~= all_same(old(list)@.len(), value));
}

/// The mode sets the level of a widely used encoder.
pub open spec fn sets_level(mode: HevcEncodeParameterMode) -> bool {
    mode == HevcEncodeParameterMode::SampleSpsLevel || mode
        == HevcEncodeParameterMode::SampleSpsLevelOrdering
}

/// The mode sets the picture ordering limits of a widely used encoder.
pub open spec fn sets_ordering(mode: HevcEncodeParameterMode) -> bool {
    mode == HevcEncodeParameterMode::SampleSpsSubLayerOrdering || mode
        == HevcEncodeParameterMode::SampleSpsLevelOrdering
}

/// The mode leaves usability information out.
pub open spec fn drops_vui(mode: HevcEncodeParameterMode) -> bool {
    mode == HevcEncodeParameterMode::SampleSpsNoVui || mode
        == HevcEncodeParameterMode::SampleSpsNoVuiFlagOn
}

impl HevcSequenceParameters {
    /// The parameters that a mode makes of these.
    pub open spec fn changed_to(self, mode: HevcEncodeParameterMode, after: Self) -> bool {
        let safe = mode == HevcEncodeParameterMode::SampleSpsSafeFlags;
        &&& after.profile_idc == self.profile_idc
        &&& after.level_idc == (if sets_level(mode) { Some(63u8) } else { self.level_idc })
        &&& after.has_vui_parameters == (self.has_vui_parameters && !drops_vui(mode))
        &&& after.amp_enabled_flag == (self.amp_enabled_flag && !safe)
        &&& after.sample_adaptive_offset_enabled_flag == self.sample_adaptive_offset_enabled_flag
        &&& after.sps_temporal_mvp_enabled_flag == (self.sps_temporal_mvp_enabled_flag || safe)
        &&& after.strong_intra_smoothing_enabled_flag == (self.strong_intra_smoothing_enabled_flag
            || safe)
        &&& after.short_term_ref_pic_set_count == (if mode
            == HevcEncodeParameterMode::SampleSpsNoRps {
            0usize
        } else {
            self.short_term_ref_pic_set_count
        })
        &&& after.max_dec_pic_buffering_minus1@ == (if sets_ordering(mode) {
            all_same(self.max_dec_pic_buffering_minus1@.len(), 4u64)
        } else {
            self.max_dec_pic_buffering_minus1@
        })
        &&& after.max_num_reorder_pics@ == (if sets_ordering(mode) {
            all_same(self.max_num_reorder_pics@.len(), 2u64)
        } else {
            self.max_num_reorder_pics@
        })
        &&& after.max_latency_increase_plus1@ == (if sets_ordering(mode) {
            all_same(self.max_latency_increase_plus1@.len(), 5u32)
        } else {
            self.max_latency_increase_plus1@
        })
    }
}

/// The syntax flag of a device that can encode with sample adaptive offset.
pub const H265_STD_SAMPLE_ADAPTIVE_OFFSET: u32 = 2;

impl HevcSequenceParameters {
    /// The parameters that a session of a device is created with: sample adaptive offset
    /// where the device has it, and no temporal motion vector prediction.
    pub open spec fn fitted_to(self, std_syntax_flags: u32, after: Self) -> bool {
        after == (HevcSequenceParameters {
            sample_adaptive_offset_enabled_flag: has_flags(std_syntax_flags, 2),
            sps_temporal_mvp_enabled_flag: false,
            ..self
        })
    }

    /// The parameters that a session of a device is created with, from these as those of
    /// a sample: what the mode makes of them, but for the two flags that the device and
    /// the codec decide.
    pub open spec fn prepared_as(
        self,
        mode: HevcEncodeParameterMode,
        std_syntax_flags: u32,
        after: Self,
    ) -> bool {
        let safe = mode == HevcEncodeParameterMode::SampleSpsSafeFlags;
        &&& after.sample_adaptive_offset_enabled_flag == has_flags(std_syntax_flags, 2)
        &&& !after.sps_temporal_mvp_enabled_flag
        &&& self.changed_to(
            mode,
            HevcSequenceParameters {
                sample_adaptive_offset_enabled_flag: self.sample_adaptive_offset_enabled_flag,
                sps_temporal_mvp_enabled_flag: self.sps_temporal_mvp_enabled_flag || safe,
                ..after
            },
        )
    }
}

pub fn fit_hevc_encode_parameters(parameters: &mut HevcSequenceParameters, std_syntax_flags: u32)
    ensures
        old(parameters).fitted_to(std_syntax_flags, *final(parameters)),
{
    parameters.sample_adaptive_offset_enabled_flag = contains_flags(
        std_syntax_flags,
        H265_STD_SAMPLE_ADAPTIVE_OFFSET,
    );
    parameters.sps_temporal_mvp_enabled_flag = false;
}

fn apply_sps_sub_layer_ordering_override(parameters: &mut HevcSequenceParameters)
    ensures
        old(parameters).changed_to(
            HevcEncodeParameterMode::SampleSpsSubLayerOrdering,
            *final(parameters),
        ),
{
    fill_u64(&mut parameters.max_dec_pic_buffering_minus1, 4);
    fill_u64(&mut parameters.max_num_reorder_pics, 2);
    fill_u32(&mut parameters.max_latency_increase_plus1, 5);
}

pub fn apply_hevc_encode_parameter_mode_sps_overrides(
    parameters: &mut HevcSequenceParameters,
    mode: HevcEncodeParameterMode,
)
    ensures
        old(parameters).changed_to(mode, *final(parameters)),
{
    match mode {
        HevcEncodeParameterMode::SampleSpsNoVui
        | HevcEncodeParameterMode::SampleSpsNoVuiFlagOn => {
            parameters.has_vui_parameters = false;
        },
        HevcEncodeParameterMode::SampleSpsNoRps => {
            parameters.short_term_ref_pic_set_count = 0;
        },
        HevcEncodeParameterMode::SampleSpsSafeFlags => {
            parameters.amp_enabled_flag = false;
            parameters.sps_temporal_mvp_enabled_flag = true;
            parameters.strong_intra_smoothing_enabled_flag = true;
        },
        HevcEncodeParameterMode::SampleSpsLevel => {
            parameters.level_idc = Some(63);
        },
        HevcEncodeParameterMode::SampleSpsSubLayerOrdering => {
            apply_sps_sub_layer_ordering_override(parameters);
        },
        HevcEncodeParameterMode::SampleSpsLevelOrdering => {
            apply_sps_sub_layer_ordering_override(parameters);
            parameters.level_idc = Some(63);
        },
        _ => {},
    }
}

/// Only the Main profile can be encoded.
pub fn validate_hevc_encode_probe_parameter_profile(profile_idc: u8) -> (r: Result<(), String>)
    ensures
        r is Ok <==> profile_idc == 1,
        r matches Err(m) ==> m@
            == "unsupported HEVC encode probe parameter sample profile_idc="@ + decimal(
            profile_idc as nat,
        )
            + "; only Main profile (profile_idc=1) is currently supported for Vulkan HEVC encode probe session parameters"@,
{
    if profile_idc == 1 {
        return Ok(());
    }
    Err(
        String::from_str("unsupported HEVC encode probe parameter sample profile_idc=").concat(
            decimal_text(profile_idc as u64).as_str(),
        ).concat(
            "; only Main profile (profile_idc=1) is currently supported for Vulkan HEVC encode probe session parameters",
        ),
    )
}

/// The path of a given sample: trimmed, and absent where nothing is left.
pub fn hevc_encode_probe_parameter_sample_override_path(value: Option<&str>) -> (r: Option<String>)
    ensures
        match value {
            None => r is None,
            Some(s) => if trimmed(s@).len() == 0 {
                r is None
            } else {
                r matches Some(path) && path@ == trimmed(s@)
            },
        },
{
    match value {
        None => None,
        Some(s) => {
            let path = s.trim();
            if path.is_empty() {
                None
            } else {
                Some(path.to_owned())
            }
        },
    }
}

// ---------------------------------------------------------------------------
// Validation messages

/// How many messages are kept.
pub const VALIDATION_MESSAGE_LIMIT: usize = 16;

/// The last messages of a validation layer.
#[derive(Debug)]
pub struct ValidationMessages {
    messages: Vec<String>,
}

/// The last `n` items, or all where there are fewer.
pub open spec fn last_items<T>(s: Seq<T>, n: int) -> Seq<T> {
    if s.len() <= n { s } else { s.skip(s.len() - n) }
}

impl ValidationMessages {
    pub closed spec fn held(self) -> Seq<Seq<char>> {
        views(self.messages@)
    }

    pub open spec fn within_limit(self) -> bool {
        self.held().len() <= 16
    }

    pub fn new() -> (r: Self)
        ensures
            r.held().len() == 0,
            r.within_limit(),
    {
        ValidationMessages { messages: Vec::new() }
    }

    pub fn clear(&mut self)
        ensures
            final(self).held().len() == 0,
            final(self).within_limit(),
    {
        self.messages.clear();
    }

    /// Adds a message and drops the oldest ones above the limit.
    pub fn push(&mut self, message: String)
        requires
            old(self).within_limit(),
        ensures
            final(self).held() == last_items(old(self).held().push(message@), 16),
            final(self).within_limit(),
    {
        self.messages.push(message);
        assert(views(self.messages@) =~= old(self).held().push(message@));
        if self.messages.len() > VALIDATION_MESSAGE_LIMIT {
            let ghost before = self.messages@;
            self.messages.remove(0);
            assert(views(self.messages@) =~= views(before).skip(1));
        }
    }

    /// A text with the last three messages behind it.
    pub fn append_to(&self, base: String) -> (r: String)
        ensures
            r@ == (if self.held().len() == 0 {
                base@
            } else {
                base@ + "; validation_messages="@ + joined(last_items(self.held(), 3), " | "@)
            }),
    {
        let n: usize = self.messages.len();
        if n == 0 {
            return base;
        }
        let from: usize = if n > 3 { n - 3 } else { 0 };
        let mut last: Vec<String> = Vec::new();
        let mut i: usize = from;
        while i < n
            invariant
                from <= i <= n,
                n == self.messages@.len(),
                last@.len() == i - from,
                forall|k: int|
                    0 <= k < i - from ==> (#[trigger] last@[k])@ == self.messages@[from + k]@,
            decreases n - i,
        {
            last.push(self.messages[i].clone());
            i = i + 1;
        }
        assert(views(last@) =~= last_items(self.held(), 3));
        base.concat("; validation_messages=").concat(join_text(&last, " | ").as_str())
    }
}

} // verus!
