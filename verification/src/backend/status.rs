//! What the backend tells when a codec cannot be used.

use crate::av1::status::{
    av1_decode_blocker_message, av1_encode_blocker_message, prerequisite_status,
};
use crate::av1::support::Av1DecodePrerequisiteProbe;
use crate::error::{error_is, BackendError, BackendErrorKind};
use crate::hevc::session::HevcEncodePrerequisiteProbe;
use crate::text::{
    bool_chars, bool_text, decimal, decimal_text, join_text, joined, size_text, views,
};
use crate::types::Codec;
use crate::vk_names::{format_name, format_name_text};
use vstd::prelude::*;
use vstd::string::*;

verus! {

#[derive(Debug, Clone, PartialEq, Eq)]
pub enum HevcDecodePrerequisiteProbe {
    Ready,
    MissingExtensions { missing: Vec<String> },
    MissingDecodeQueueFamily,
    NoCompatibleAdapter,
    DeviceInitializationFailed(String),
    ProbeUnavailable(String),
}

/// Why HEVC cannot be decoded here.
pub open spec fn hevc_decode_status(probe: HevcDecodePrerequisiteProbe) -> Seq<char> {
    "Vulkan HEVC decode initialization failed"@ + (match probe {
        HevcDecodePrerequisiteProbe::Ready => "; runtime prerequisites are present, but HEVC session bootstrap/decode submit failed"@,
        HevcDecodePrerequisiteProbe::MissingExtensions { missing } => "; missing Vulkan extensions: "@ + joined(views(missing@), ", "@),
        HevcDecodePrerequisiteProbe::MissingDecodeQueueFamily => "; no queue family advertises VIDEO_DECODE_KHR with H.265 decode operation"@,
        HevcDecodePrerequisiteProbe::DeviceInitializationFailed(details) => "; device bootstrap for HEVC decode failed: "@ + details@,
        HevcDecodePrerequisiteProbe::NoCompatibleAdapter => "; required extensions were observed but not on a single adapter that can run HEVC decode end-to-end"@,
        HevcDecodePrerequisiteProbe::ProbeUnavailable(details) => "; extension probe failed: "@ + details@,
    })
}

pub fn hevc_decode_blocker_message(probe: &HevcDecodePrerequisiteProbe) -> (r: String)
    ensures
        r@ == hevc_decode_status(*probe),
{
    let reason = match probe {
        HevcDecodePrerequisiteProbe::Ready => String::from_str("; runtime prerequisites are present, but HEVC session bootstrap/decode submit failed"),
        HevcDecodePrerequisiteProbe::MissingExtensions { missing } => String::from_str("; missing Vulkan extensions: ").concat(join_text(missing, ", ").as_str()),
        HevcDecodePrerequisiteProbe::MissingDecodeQueueFamily => String::from_str("; no queue family advertises VIDEO_DECODE_KHR with H.265 decode operation"),
        HevcDecodePrerequisiteProbe::DeviceInitializationFailed(details) => String::from_str("; device bootstrap for HEVC decode failed: ").concat(details.as_str()),
        HevcDecodePrerequisiteProbe::NoCompatibleAdapter => String::from_str("; required extensions were observed but not on a single adapter that can run HEVC decode end-to-end"),
        HevcDecodePrerequisiteProbe::ProbeUnavailable(details) => String::from_str("; extension probe failed: ").concat(details.as_str()),
    };
    String::from_str("Vulkan HEVC decode initialization failed").concat(reason.as_str())
}

/// Why HEVC cannot be encoded here.
pub open spec fn hevc_encode_status(probe: HevcEncodePrerequisiteProbe) -> Seq<char> {
    "Vulkan HEVC encode initialization failed"@ + (match probe {
        HevcEncodePrerequisiteProbe::Ready => "; runtime prerequisites are present, but the direct ash-level HEVC encode submit path is not wired yet"@,
        HevcEncodePrerequisiteProbe::MissingExtensions { missing } => "; missing Vulkan extensions: "@ + joined(views(missing@), ", "@),
        HevcEncodePrerequisiteProbe::MissingEncodeQueueFamily => "; no queue family advertises VIDEO_ENCODE_KHR with H.265 encode operation"@,
        HevcEncodePrerequisiteProbe::DeviceInitializationFailed(details) => "; device bootstrap for HEVC encode failed: "@ + details@,
        HevcEncodePrerequisiteProbe::NoCompatibleAdapter => "; required extensions were observed but not on a single adapter that can run HEVC encode end-to-end"@,
        HevcEncodePrerequisiteProbe::ProbeUnavailable(details) => "; extension probe failed: "@ + details@,
    })
}

pub fn hevc_encode_blocker_message(probe: &HevcEncodePrerequisiteProbe) -> (r: String)
    ensures
        r@ == hevc_encode_status(*probe),
{
    let reason = match probe {
        HevcEncodePrerequisiteProbe::Ready => String::from_str("; runtime prerequisites are present, but the direct ash-level HEVC encode submit path is not wired yet"),
        HevcEncodePrerequisiteProbe::MissingExtensions { missing } => String::from_str("; missing Vulkan extensions: ").concat(join_text(missing, ", ").as_str()),
        HevcEncodePrerequisiteProbe::MissingEncodeQueueFamily => String::from_str("; no queue family advertises VIDEO_ENCODE_KHR with H.265 encode operation"),
        HevcEncodePrerequisiteProbe::DeviceInitializationFailed(details) => String::from_str("; device bootstrap for HEVC encode failed: ").concat(details.as_str()),
        HevcEncodePrerequisiteProbe::NoCompatibleAdapter => String::from_str("; required extensions were observed but not on a single adapter that can run HEVC encode end-to-end"),
        HevcEncodePrerequisiteProbe::ProbeUnavailable(details) => String::from_str("; extension probe failed: ").concat(details.as_str()),
    };
    String::from_str("Vulkan HEVC encode initialization failed").concat(reason.as_str())
}

/// What probing this machine came to.
#[derive(Debug)]
pub struct VulkanPrerequisites {
    pub av1_decode: Av1DecodePrerequisiteProbe,
    pub hevc_decode: HevcDecodePrerequisiteProbe,
    pub hevc_encode: HevcEncodePrerequisiteProbe,
}

#[derive(Debug, Clone, Copy, PartialEq, Eq, Structural)]
pub enum VulkanOperation {
    Decode,
    Encode,
}

/// Why an operation is not available for a codec, if it is not.
pub open spec fn codec_fault(
    codec: Codec,
    operation: VulkanOperation,
    found: VulkanPrerequisites,
) -> Option<Seq<char>> {
    match (codec, operation) {
        (Codec::H264, _) => None,
        (Codec::Hevc, VulkanOperation::Decode) => Some(hevc_decode_status(found.hevc_decode)),
        (Codec::Hevc, VulkanOperation::Encode) => Some(hevc_encode_status(found.hevc_encode)),
        (Codec::Av1, VulkanOperation::Decode) => Some(prerequisite_status(found.av1_decode)),
        (Codec::Av1, VulkanOperation::Encode) => Some(
            "Vulkan AV1 encode initialization failed; ash 0.38.0 exposes VK_KHR_video_decode_av1 bindings but not VK_KHR_video_encode_av1, so video-hw cannot implement Vulkan AV1 encode without updating Vulkan bindings"@,
        ),
    }
}

/// Only H.264 goes through the common path; the others say what they lack.
pub fn ensure_vk_codec_supported(
    codec: Codec,
    operation: VulkanOperation,
    found: &VulkanPrerequisites,
) -> (r: Result<(), BackendError>)
    ensures
        match codec_fault(codec, operation, *found) {
            None => r is Ok,
            Some(e) => r matches Err(m) && error_is(m, BackendErrorKind::UnsupportedConfig, e),
        },
{
    match codec {
        Codec::H264 => Ok(()),
        Codec::Hevc => Err(
            BackendError::UnsupportedConfig(
                match operation {
                    VulkanOperation::Decode => hevc_decode_blocker_message(&found.hevc_decode),
                    VulkanOperation::Encode => hevc_encode_blocker_message(&found.hevc_encode),
                },
            ),
        ),
        Codec::Av1 => Err(
            BackendError::UnsupportedConfig(
                match operation {
                    VulkanOperation::Decode => av1_decode_blocker_message(&found.av1_decode),
                    VulkanOperation::Encode => av1_encode_blocker_message(),
                },
            ),
        ),
    }
}

// ---------------------------------------------------------------------------
// HEVC bitstreams

/// The sizes of the parameter sets of a bitstream.
#[derive(Debug, Clone, Copy, PartialEq, Eq, Structural)]
pub struct HevcParameterSetSizes {
    pub vps_bytes: usize,
    pub sps_bytes: usize,
    pub pps_bytes: usize,
    pub coded_width: u32,
    pub coded_height: u32,
}

/// How a step of trying a session went.
#[derive(Debug, Clone)]
pub enum HevcStep {
    Done,
    Failed(String),
    Skipped(String),
}

/// The plan of the first picture; what has no fixed form is given as text.
#[derive(Debug, Clone)]
pub struct HevcSubmitSkeleton {
    pub vps_id: u32,
    pub sps_id: u32,
    pub pps_id: u32,
    pub vcl_nalu_count: usize,
    pub first_slice_nal_type: String,
    pub first_slice_pps_id: String,
    pub first_slice_pic_order_cnt_lsb: String,
    pub planned_dpb_slots: String,
    pub planned_reference_slots: String,
}

/// How decoding pictures went; what has no fixed form is given as text.
#[derive(Debug, Clone)]
pub struct HevcSubmitExecution {
    pub queue_family_index: u32,
    pub output_format: i32,
    pub coded_width: u32,
    pub coded_height: u32,
    pub readback_non_zero: bool,
    pub readback_bytes: usize,
    pub readback_planes: u32,
    pub readback_sample_stride: usize,
    pub readback_sample_count: u32,
    pub readback_sample_len: usize,
    pub submitted_access_units: u32,
    pub experimental_dpb_enabled: bool,
    pub experimental_dpb_mode: String,
    pub experimental_dpb_status: String,
}

/// What trying a session for a bitstream came to.
#[derive(Debug)]
pub struct HevcDecodeBootstrap {
    pub coded_width: u32,
    pub coded_height: u32,
    pub min_coded_width: u32,
    pub min_coded_height: u32,
    pub max_coded_width: u32,
    pub max_coded_height: u32,
    pub max_dpb_slots: u32,
    pub max_active_reference_pictures: u32,
    pub max_level_idc: u32,
    pub decode_output_formats: Vec<i32>,
    pub session_create: HevcStep,
    pub parameters_create: HevcStep,
    pub submit_skeleton: Result<HevcSubmitSkeleton, HevcStep>,
    pub submit_execution: Result<HevcSubmitExecution, HevcStep>,
}

pub open spec fn step_status(step: HevcStep, done: Seq<char>) -> Seq<char> {
    match step {
        HevcStep::Done => done,
        HevcStep::Failed(e) => "failed ("@ + e@ + ")"@,
        HevcStep::Skipped(e) => "skipped ("@ + e@ + ")"@,
    }
}

fn step_status_text(step: &HevcStep, done: &str) -> (r: String)
    ensures
        r@ == step_status(*step, done@),
{
    match step {
        HevcStep::Done => String::from_str(done),
        HevcStep::Failed(e) => String::from_str("failed (").concat(e.as_str()).concat(")"),
        HevcStep::Skipped(e) => String::from_str("skipped (").concat(e.as_str()).concat(")"),
    }
}

/// The message when the pictures could not be decoded, with what is known of the device.
pub open spec fn execution_fault(step: HevcStep, blocker: Seq<char>) -> Option<Seq<char>> {
    match step {
        HevcStep::Done => None,
        HevcStep::Failed(e) => Some(
            "Vulkan HEVC decode submit execution failed: "@ + e@ + "; "@ + blocker,
        ),
        HevcStep::Skipped(e) => Some(
            "Vulkan HEVC decode submit execution was skipped: "@ + e@ + "; "@ + blocker,
        ),
    }
}

/// The error of a step that did not come to an end.
pub fn hevc_execution_error(step: &HevcStep, blocker: &str) -> (r: Option<BackendError>)
    ensures
        match execution_fault(*step, blocker@) {
            Some(m) => r matches Some(e) && error_is(e, BackendErrorKind::UnsupportedConfig, m),
            None => r is None,
        },
{
    match step {
        HevcStep::Done => None,
        HevcStep::Failed(e) => Some(
            BackendError::UnsupportedConfig(
                String::from_str("Vulkan HEVC decode submit execution failed: ").concat(
                    e.as_str(),
                ).concat("; ").concat(blocker),
            ),
        ),
        HevcStep::Skipped(e) => Some(
            BackendError::UnsupportedConfig(
                String::from_str("Vulkan HEVC decode submit execution was skipped: ").concat(
                    e.as_str(),
                ).concat("; ").concat(blocker),
            ),
        ),
    }
}

pub open spec fn skeleton_status(skeleton: Result<HevcSubmitSkeleton, HevcStep>) -> Seq<char> {
    match skeleton {
        Ok(s) => "ready(vps_id="@ + decimal(s.vps_id as nat)
        + ", sps_id="@ + decimal(s.sps_id as nat)
        + ", pps_id="@ + decimal(s.pps_id as nat)
        + ", vcl_nalus="@ + decimal(s.vcl_nalu_count as nat)
        + ", first_slice_nal_type="@ + s.first_slice_nal_type@
        + ", first_slice_pps_id="@ + s.first_slice_pps_id@
        + ", first_slice_pic_order_cnt_lsb="@ + s.first_slice_pic_order_cnt_lsb@
        + ", dpb_slots="@ + s.planned_dpb_slots@
        + ", ref_slots="@ + s.planned_reference_slots@
        + ")"@,
        Err(step) => step_status(step, "ready"@),
    }
}

fn skeleton_status_text(skeleton: &Result<HevcSubmitSkeleton, HevcStep>) -> (r: String)
    ensures
        r@ == skeleton_status(*skeleton),
{
    match skeleton {
        Ok(s) => String::from_str("ready(vps_id=")
            .concat(decimal_text(s.vps_id as u64).as_str()).concat(", sps_id=")
            .concat(decimal_text(s.sps_id as u64).as_str()).concat(", pps_id=")
            .concat(decimal_text(s.pps_id as u64).as_str()).concat(", vcl_nalus=")
            .concat(decimal_text(s.vcl_nalu_count as u64).as_str()).concat(", first_slice_nal_type=")
            .concat(s.first_slice_nal_type.as_str()).concat(", first_slice_pps_id=")
            .concat(s.first_slice_pps_id.as_str()).concat(", first_slice_pic_order_cnt_lsb=")
            .concat(s.first_slice_pic_order_cnt_lsb.as_str()).concat(", dpb_slots=")
            .concat(s.planned_dpb_slots.as_str()).concat(", ref_slots=")
            .concat(s.planned_reference_slots.as_str()).concat(")"),
        Err(step) => step_status_text(step, "ready"),
    }
}

/// How decoding went, given the name of the output format.
pub open spec fn execution_status(
    execution: Result<HevcSubmitExecution, HevcStep>,
    name: Seq<char>,
) -> Seq<char> {
    match execution {
        Ok(x) => "ready(queue_family_index="@ + decimal(x.queue_family_index as nat)
        + ", output_format="@ + name
        + ", coded="@ + decimal(x.coded_width as nat)
        + "x"@ + decimal(x.coded_height as nat)
        + ", readback_non_zero="@ + bool_chars(x.readback_non_zero)
        + ", readback_bytes="@ + decimal(x.readback_bytes as nat)
        + ", readback_planes="@ + decimal(x.readback_planes as nat)
        + ", readback_sample_stride="@ + decimal(x.readback_sample_stride as nat)
        + ", readback_sample_count="@ + decimal(x.readback_sample_count as nat)
        + ", readback_sample_len="@ + decimal(x.readback_sample_len as nat)
        + ", submitted_access_units="@ + decimal(x.submitted_access_units as nat)
        + ", experimental_dpb_enabled="@ + bool_chars(x.experimental_dpb_enabled)
        + ", experimental_dpb_mode="@ + x.experimental_dpb_mode@
        + ", experimental_dpb_status="@ + x.experimental_dpb_status@
        + ")"@,
        Err(step) => step_status(step, "ready"@),
    }
}

fn execution_status_text(execution: &Result<HevcSubmitExecution, HevcStep>, name: &str) -> (r: String)
    ensures
        r@ == execution_status(*execution, name@),
{
    match execution {
        Ok(x) => String::from_str("ready(queue_family_index=")
            .concat(decimal_text(x.queue_family_index as u64).as_str()).concat(", output_format=")
            .concat(name).concat(", coded=")
            .concat(decimal_text(x.coded_width as u64).as_str()).concat("x")
            .concat(decimal_text(x.coded_height as u64).as_str()).concat(", readback_non_zero=")
            .concat(bool_text(x.readback_non_zero)).concat(", readback_bytes=")
            .concat(decimal_text(x.readback_bytes as u64).as_str()).concat(", readback_planes=")
            .concat(decimal_text(x.readback_planes as u64).as_str()).concat(", readback_sample_stride=")
            .concat(decimal_text(x.readback_sample_stride as u64).as_str()).concat(", readback_sample_count=")
            .concat(decimal_text(x.readback_sample_count as u64).as_str()).concat(", readback_sample_len=")
            .concat(decimal_text(x.readback_sample_len as u64).as_str()).concat(", submitted_access_units=")
            .concat(decimal_text(x.submitted_access_units as u64).as_str()).concat(", experimental_dpb_enabled=")
            .concat(bool_text(x.experimental_dpb_enabled)).concat(", experimental_dpb_mode=")
            .concat(x.experimental_dpb_mode.as_str()).concat(", experimental_dpb_status=")
            .concat(x.experimental_dpb_status.as_str()).concat(")"),
        Err(step) => step_status_text(step, "ready"),
    }
}

/// What trying a session came to, given the names of formats.
pub open spec fn bootstrap_status(
    b: HevcDecodeBootstrap,
    formats: Seq<char>,
    name: Seq<char>,
) -> Seq<char> {
    "; session bootstrap probe: coded="@ + decimal(b.coded_width as nat)
        + "x"@ + decimal(b.coded_height as nat)
        + ", supported="@ + decimal(b.min_coded_width as nat)
        + "x"@ + decimal(b.min_coded_height as nat)
        + ".."@ + decimal(b.max_coded_width as nat)
        + "x"@ + decimal(b.max_coded_height as nat)
        + ", max_dpb_slots="@ + decimal(b.max_dpb_slots as nat)
        + ", max_active_refs="@ + decimal(b.max_active_reference_pictures as nat)
        + ", max_level_idc="@ + decimal(b.max_level_idc as nat)
        + ", output_formats=["@ + formats
        + "], video_session_create="@ + step_status(b.session_create, "created"@)
        + ", video_session_parameters_create="@ + step_status(b.parameters_create, "created"@)
        + ", decode_submit_skeleton="@ + skeleton_status(b.submit_skeleton)
        + ", decode_submit_execution="@ + execution_status(b.submit_execution, name)
}

fn bootstrap_status_text(b: &HevcDecodeBootstrap, formats: &str, name: &str) -> (r: String)
    ensures
        r@ == bootstrap_status(*b, formats@, name@),
{
    String::from_str("; session bootstrap probe: coded=")
        .concat(decimal_text(b.coded_width as u64).as_str()).concat("x")
        .concat(decimal_text(b.coded_height as u64).as_str()).concat(", supported=")
        .concat(decimal_text(b.min_coded_width as u64).as_str()).concat("x")
        .concat(decimal_text(b.min_coded_height as u64).as_str()).concat("..")
        .concat(decimal_text(b.max_coded_width as u64).as_str()).concat("x")
        .concat(decimal_text(b.max_coded_height as u64).as_str()).concat(", max_dpb_slots=")
        .concat(decimal_text(b.max_dpb_slots as u64).as_str()).concat(", max_active_refs=")
        .concat(decimal_text(b.max_active_reference_pictures as u64).as_str()).concat(", max_level_idc=")
        .concat(decimal_text(b.max_level_idc as u64).as_str()).concat(", output_formats=[")
        .concat(formats).concat("], video_session_create=")
        .concat(step_status_text(&b.session_create, "created").as_str()).concat(", video_session_parameters_create=")
        .concat(step_status_text(&b.parameters_create, "created").as_str()).concat(", decode_submit_skeleton=")
        .concat(skeleton_status_text(&b.submit_skeleton).as_str()).concat(", decode_submit_execution=")
        .concat(execution_status_text(&b.submit_execution, name).as_str())
}

/// A list of formats by their names.
pub open spec fn format_list(formats: Seq<i32>) -> Seq<char> {
    if joined(Seq::new(formats.len(), |i: int| format_name(formats[i])), ", "@).len() == 0 {
        "none"@
    } else {
        joined(Seq::new(formats.len(), |i: int| format_name(formats[i])), ", "@)
    }
}

fn format_list_text(formats: &Vec<i32>) -> (r: String)
    ensures
        r@ == format_list(formats@),
{
    let mut names: Vec<String> = Vec::new();
    let mut i: usize = 0;
    while i < formats.len()
        invariant
            i <= formats.len(),
            names@.len() == i,
            forall|k: int| 0 <= k < i ==> (#[trigger] names@[k])@ == format_name(formats@[k]),
        decreases formats.len() - i,
    {
        names.push(format_name_text(formats[i]));
        i = i + 1;
    }
    assert(views(names@) =~= Seq::new(formats@.len(), |k: int| format_name(formats@[k])));
    let text = join_text(&names, ", ");
    if text.as_str().is_empty() {
        String::from_str("none")
    } else {
        text
    }
}

/// The sizes of the parameter sets.
pub open spec fn parameter_set_status(p: HevcParameterSetSizes) -> Seq<char> {
    "; parsed HEVC parameter sets: vps="@ + decimal(p.vps_bytes as nat) + " bytes, sps="@ + decimal(
        p.sps_bytes as nat,
    ) + " bytes, pps="@ + decimal(p.pps_bytes as nat) + " bytes, coded="@ + decimal(
        p.coded_width as nat,
    ) + "x"@ + decimal(p.coded_height as nat)
}

/// Why a bitstream cannot be decoded, given the names of formats.
pub open spec fn hevc_bitstream_status(
    probe: HevcDecodePrerequisiteProbe,
    sets: Result<HevcParameterSetSizes, String>,
    bootstrap: Result<HevcDecodeBootstrap, String>,
    formats: Seq<char>,
    name: Seq<char>,
) -> Seq<char> {
    hevc_decode_status(probe) + (match sets {
        Ok(p) => parameter_set_status(p) + (match bootstrap {
            Ok(b) => bootstrap_status(b, formats, name),
            Err(e) => "; session bootstrap probe failed: "@ + e@,
        }),
        Err(e) => "; parameter-set extraction failed: "@ + e@,
    })
}

/// Why a bitstream cannot be decoded, given the names of formats.
pub fn hevc_bitstream_status_named(
    probe: &HevcDecodePrerequisiteProbe,
    sets: &Result<HevcParameterSetSizes, String>,
    bootstrap: &Result<HevcDecodeBootstrap, String>,
    formats: &str,
    name: &str,
) -> (r: String)
    ensures
        r@ == hevc_bitstream_status(*probe, *sets, *bootstrap, formats@, name@),
{
    let start = hevc_decode_blocker_message(probe);
    let rest = match sets {
        Ok(p) => {
            let sizes = String::from_str("; parsed HEVC parameter sets: vps=").concat(
                size_text(p.vps_bytes).as_str(),
            ).concat(" bytes, sps=").concat(size_text(p.sps_bytes).as_str()).concat(
                " bytes, pps=",
            ).concat(size_text(p.pps_bytes).as_str()).concat(" bytes, coded=").concat(
                decimal_text(p.coded_width as u64).as_str(),
            ).concat("x").concat(decimal_text(p.coded_height as u64).as_str());
            let session = match bootstrap {
                Ok(b) => bootstrap_status_text(b, formats, name),
                Err(e) => String::from_str("; session bootstrap probe failed: ").concat(
                    e.as_str(),
                ),
            };
            sizes.concat(session.as_str())
        },
        Err(e) => String::from_str("; parameter-set extraction failed: ").concat(e.as_str()),
    };
    start.concat(rest.as_str())
}

/// Why a bitstream cannot be decoded: what is missing here, and all that can be told
/// of the bitstream and of trying it.
pub fn hevc_decode_blocker_message_with_bitstream(
    probe: &HevcDecodePrerequisiteProbe,
    sets: &Result<HevcParameterSetSizes, String>,
    bootstrap: &Result<HevcDecodeBootstrap, String>,
) -> (r: String)
    ensures
        r@ == hevc_bitstream_status(
            *probe,
            *sets,
            *bootstrap,
            match *bootstrap {
                Ok(b) => format_list(b.decode_output_formats@),
                Err(_) => ""@,
            },
            match *bootstrap {
                Ok(b) => match b.submit_execution {
                    Ok(x) => format_name(x.output_format),
                    Err(_) => ""@,
                },
                Err(_) => ""@,
            },
        ),
{
    let (formats, name) = match bootstrap {
        Ok(b) => (
            format_list_text(&b.decode_output_formats),
            match &b.submit_execution {
                Ok(x) => format_name_text(x.output_format),
                Err(_) => String::from_str(""),
            },
        ),
        Err(_) => (String::from_str(""), String::from_str("")),
    };
    hevc_bitstream_status_named(probe, sets, bootstrap, formats.as_str(), name.as_str())
}

} // verus!
