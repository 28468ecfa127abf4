//! What the backend tells of an AV1 bitstream that it cannot decode.

use super::command::{
    build_av1_aligned_key_frame_decode_command_skeleton,
    build_av1_key_frame_decode_command_skeleton, command_fault, commands,
    law_built_commands_are_consistent, lemma_bundles_ok, record_bundles, Av1DecodeCommandSkeleton,
};
use super::decode::{
    build_av1_decode_info_skeleton, build_av1_decode_info_skeletons,
    build_av1_decode_picture_info_skeleton, decode_infos, info_views, law_decode_infos_in_bounds,
    picture_of, DecodeInfo,
};
use super::plan::{
    all_placed, lemma_placed_frames_fit, lemma_upload_bytes_len, lemma_upload_grows,
    lemma_upload_len_counts, reads_inside, upload_allocatable, upload_fault, upload_len,
    Av1DecodeBitstreamUploadPlan,
};
use super::skeleton::{
    bitstream_frames, bitstream_header, build_av1_decode_submit_skeleton, checked_tile_bytes,
    extract_av1_std_sequence_header, inspect_av1_low_overhead_obus, inspection, total,
    total_tile_bytes, Av1BitstreamInspection,
};
use super::submit::{law_built_plan_and_command_fit, submit_fault};
use super::support::Av1DecodePrerequisiteProbe;
use crate::text::{
    bool_chars, bool_text, decimal, decimal_text, join_text, joined, signed_decimal, signed_text,
    views,
};
use crate::vk_names::{format_name, format_name_text, image_usage_name, image_usage_name_text};
use vstd::prelude::*;
use vstd::string::*;

verus! {

/// What trying a session for a bitstream came to.
#[derive(Debug, Clone, Copy, PartialEq, Eq, Structural)]
pub struct Av1DecodeBitstreamSessionProbe {
    pub coded_width: u32,
    pub coded_height: u32,
    pub picture_format: i32,
    pub min_bitstream_buffer_offset_alignment: u64,
    pub min_bitstream_buffer_size_alignment: u64,
    pub bitstream_upload_bytes: u64,
    pub decode_image_layers: u32,
    pub decode_image_barrier_layers: u32,
    pub readback_bytes: u64,
    pub readback_region_count: u64,
    pub command_record_decode_count: u64,
    pub command_buffer_recorded: bool,
    pub command_buffer_submitted: bool,
    pub session_memory_requirement_count: u64,
    pub session_memory_bound_count: u64,
    pub session_memory_total_size: u64,
    pub session_memory_max_alignment: u64,
}

/// The image that pictures are decoded into.
#[derive(Debug, Clone, Copy, PartialEq, Eq, Structural)]
pub struct Av1DecodeImagePlan {
    pub array_layers: u32,
    pub create_layers: u32,
    pub usage: u32,
}

/// The number of slots that a trial command has.
pub const STATUS_DPB_SLOTS: u32 = 4;

/// The alignment where no device gives one.
pub const FALLBACK_ALIGNMENT: u64 = 4096;

pub open spec fn unavailable(error: Seq<char>) -> Seq<char> {
    "unavailable("@ + error + ")"@
}

fn unavailable_text(error: &str) -> (r: String)
    ensures
        r@ == unavailable(error@),
{
    String::from_str("unavailable(").concat(error).concat(")")
}

/// Why AV1 cannot be decoded here.
pub open spec fn prerequisite_status(probe: Av1DecodePrerequisiteProbe) -> Seq<char> {
    "Vulkan AV1 decode initialization failed"@ + (match probe {
        Av1DecodePrerequisiteProbe::Ready =>
            "; runtime prerequisites are present, but AV1 session bootstrap/decode submit is not implemented in video-hw yet"@,
        Av1DecodePrerequisiteProbe::MissingExtensions { missing } =>
            "; missing Vulkan extensions: "@ + joined(views(missing@), ", "@),
        Av1DecodePrerequisiteProbe::MissingDecodeQueueFamily =>
            "; no queue family advertises VIDEO_DECODE_KHR with AV1 decode operation"@,
        Av1DecodePrerequisiteProbe::SessionBootstrapFailed(details) =>
            "; AV1 decode session bootstrap failed: "@ + details@,
        Av1DecodePrerequisiteProbe::NoCompatibleAdapter =>
            "; required extensions were observed but not on a single adapter that can run AV1 decode prerequisites"@,
        Av1DecodePrerequisiteProbe::ProbeUnavailable(details) => "; extension probe failed: "@
            + details@,
    })
}

pub fn av1_decode_blocker_message(probe: &Av1DecodePrerequisiteProbe) -> (r: String)
    ensures
        r@ == prerequisite_status(*probe),
{
    let reason = match probe {
        Av1DecodePrerequisiteProbe::Ready => String::from_str(
            "; runtime prerequisites are present, but AV1 session bootstrap/decode submit is not implemented in video-hw yet",
        ),
        Av1DecodePrerequisiteProbe::MissingExtensions { missing } => String::from_str(
            "; missing Vulkan extensions: ",
        ).concat(join_text(missing, ", ").as_str()),
        Av1DecodePrerequisiteProbe::MissingDecodeQueueFamily => String::from_str(
            "; no queue family advertises VIDEO_DECODE_KHR with AV1 decode operation",
        ),
        Av1DecodePrerequisiteProbe::SessionBootstrapFailed(details) => String::from_str(
            "; AV1 decode session bootstrap failed: ",
        ).concat(details.as_str()),
        Av1DecodePrerequisiteProbe::NoCompatibleAdapter => String::from_str(
            "; required extensions were observed but not on a single adapter that can run AV1 decode prerequisites",
        ),
        Av1DecodePrerequisiteProbe::ProbeUnavailable(details) => String::from_str(
            "; extension probe failed: ",
        ).concat(details.as_str()),
    };
    String::from_str("Vulkan AV1 decode initialization failed").concat(reason.as_str())
}

/// Why AV1 cannot be encoded.
pub fn av1_encode_blocker_message() -> (r: String)
    ensures
        r@
            == "Vulkan AV1 encode initialization failed; ash 0.38.0 exposes VK_KHR_video_decode_av1 bindings but not VK_KHR_video_encode_av1, so video-hw cannot implement Vulkan AV1 encode without updating Vulkan bindings"@,
{
    String::from_str(
        "Vulkan AV1 encode initialization failed; ash 0.38.0 exposes VK_KHR_video_decode_av1 bindings but not VK_KHR_video_encode_av1, so video-hw cannot implement Vulkan AV1 encode without updating Vulkan bindings",
    )
}

/// Whether there is a sequence header.
pub open spec fn header_status(b: Seq<u8>) -> Seq<char> {
    match bitstream_header(b) {
        Ok(_) => "ready"@,
        Err(e) => unavailable(e),
    }
}

fn header_status_text(bitstream: &[u8]) -> (r: String)
    ensures
        r@ == header_status(bitstream@),
{
    match extract_av1_std_sequence_header(bitstream) {
        Ok(_) => String::from_str("ready"),
        Err(e) => unavailable_text(e.as_str()),
    }
}

/// What trying a session came to, given the name of its format.
pub open spec fn session_status(
    session: Result<Av1DecodeBitstreamSessionProbe, String>,
    name: Seq<char>,
) -> Seq<char> {
    match session {
        Ok(p) => "ready(coded="@ + decimal(p.coded_width as nat)
        + "x"@ + decimal(p.coded_height as nat)
        + ", picture_format="@ + name
        + ", offset_align="@ + decimal(p.min_bitstream_buffer_offset_alignment as nat)
        + ", size_align="@ + decimal(p.min_bitstream_buffer_size_alignment as nat)
        + ", upload_bytes="@ + decimal(p.bitstream_upload_bytes as nat)
        + ", decode_image_layers="@ + decimal(p.decode_image_layers as nat)
        + ", decode_image_barrier_layers="@ + decimal(p.decode_image_barrier_layers as nat)
        + ", readback_bytes="@ + decimal(p.readback_bytes as nat)
        + ", readback_regions="@ + decimal(p.readback_region_count as nat)
        + ", command_record_decodes="@ + decimal(p.command_record_decode_count as nat)
        + ", command_buffer_recorded="@ + bool_chars(p.command_buffer_recorded)
        + ", command_buffer_submitted="@ + bool_chars(p.command_buffer_submitted)
        + ", session_memory_count="@ + decimal(p.session_memory_requirement_count as nat)
        + ", session_memory_bound="@ + decimal(p.session_memory_bound_count as nat)
        + ", session_memory_total="@ + decimal(p.session_memory_total_size as nat)
        + ", session_memory_max_align="@ + decimal(p.session_memory_max_alignment as nat)
        + ")"@,
        Err(e) => unavailable(e@),
    }
}

pub fn session_status_text(session: &Result<Av1DecodeBitstreamSessionProbe, String>, name: &str) -> (r:
    String)
    ensures
        r@ == session_status(*session, name@),
{
    match session {
        Ok(p) => String::from_str("ready(coded=")
            .concat(decimal_text(p.coded_width as u64).as_str()).concat("x")
            .concat(decimal_text(p.coded_height as u64).as_str()).concat(", picture_format=")
            .concat(name).concat(", offset_align=")
            .concat(decimal_text(p.min_bitstream_buffer_offset_alignment as u64).as_str()).concat(", size_align=")
            .concat(decimal_text(p.min_bitstream_buffer_size_alignment as u64).as_str()).concat(", upload_bytes=")
            .concat(decimal_text(p.bitstream_upload_bytes as u64).as_str()).concat(", decode_image_layers=")
            .concat(decimal_text(p.decode_image_layers as u64).as_str()).concat(", decode_image_barrier_layers=")
            .concat(decimal_text(p.decode_image_barrier_layers as u64).as_str()).concat(", readback_bytes=")
            .concat(decimal_text(p.readback_bytes as u64).as_str()).concat(", readback_regions=")
            .concat(decimal_text(p.readback_region_count as u64).as_str()).concat(", command_record_decodes=")
            .concat(decimal_text(p.command_record_decode_count as u64).as_str()).concat(", command_buffer_recorded=")
            .concat(bool_text(p.command_buffer_recorded)).concat(", command_buffer_submitted=")
            .concat(bool_text(p.command_buffer_submitted)).concat(", session_memory_count=")
            .concat(decimal_text(p.session_memory_requirement_count as u64).as_str()).concat(", session_memory_bound=")
            .concat(decimal_text(p.session_memory_bound_count as u64).as_str()).concat(", session_memory_total=")
            .concat(decimal_text(p.session_memory_total_size as u64).as_str()).concat(", session_memory_max_align=")
            .concat(decimal_text(p.session_memory_max_alignment as u64).as_str()).concat(")"),
        Err(e) => unavailable_text(e.as_str()),
    }
}

/// The first frame.
pub open spec fn submit_status(b: Seq<u8>) -> Seq<char> {
    match bitstream_frames(b) {
        Ok(frames) => "ready(tu="@ + decimal(frames[0].temporal_unit as nat)
        + ", frame_header_offset="@ + decimal(frames[0].header as nat)
        + ", tile_count="@ + decimal(frames[0].offsets.len() as nat)
        + ")"@,
        Err(e) => unavailable(e),
    }
}

fn submit_status_text(bitstream: &[u8]) -> (r: String)
    ensures
        r@ == submit_status(bitstream@),
{
    match build_av1_decode_submit_skeleton(bitstream) {
        Ok(s) => String::from_str("ready(tu=")
            .concat(decimal_text(s.temporal_unit_index as u64).as_str()).concat(", frame_header_offset=")
            .concat(decimal_text(s.frame_header_offset as u64).as_str()).concat(", tile_count=")
            .concat(decimal_text(s.tile_offsets.len() as u64).as_str()).concat(")"),
        Err(e) => unavailable_text(e.as_str()),
    }
}

/// The tiles of the first picture can be counted.
pub open spec fn tiles_countable(b: Seq<u8>) -> bool {
    bitstream_frames(b) matches Ok(frames) ==> (picture_of(frames[0]) matches Ok(p) ==> total(
        p.sizes,
    ) <= u32::MAX)
}

/// Whether the tiles of the first picture can be counted.
pub fn av1_tiles_countable(bitstream: &[u8]) -> (r: bool)
    ensures
        r == tiles_countable(bitstream@),
{
    match build_av1_decode_submit_skeleton(bitstream) {
        Ok(submit) => match build_av1_decode_picture_info_skeleton(&submit) {
            Ok(p) => checked_tile_bytes(&p.tile_sizes).is_some(),
            Err(_) => true,
        },
        Err(_) => true,
    }
}

/// The picture of the first frame.
pub open spec fn picture_status(b: Seq<u8>) -> Seq<char> {
    match bitstream_frames(b) {
        Ok(frames) => match picture_of(frames[0]) {
            Ok(p) => "ready(frame_type=0, frame_header_offset="@ + decimal(p.header as nat)
        + ", vk_frame_header_offset="@ + decimal(p.header as nat)
        + ", tile_count="@ + decimal(p.offsets.len() as nat)
        + ", tile_bytes="@ + decimal(total(p.sizes) as nat)
        + ", reference_slots="@ + decimal(7)
        + ")"@,
            Err(e) => unavailable(e),
        },
        Err(e) => unavailable(e),
    }
}

fn picture_status_text(bitstream: &[u8]) -> (r: String)
    requires
        tiles_countable(bitstream@),
    ensures
        r@ == picture_status(bitstream@),
{
    match build_av1_decode_submit_skeleton(bitstream) {
        Ok(submit) => match build_av1_decode_picture_info_skeleton(&submit) {
            Ok(p) => String::from_str("ready(frame_type=0, frame_header_offset=")
                .concat(decimal_text(p.frame_header_offset as u64).as_str()).concat(", vk_frame_header_offset=")
                .concat(decimal_text(p.frame_header_offset as u64).as_str()).concat(", tile_count=")
                .concat(decimal_text(p.tile_offsets.len() as u64).as_str()).concat(", tile_bytes=")
                .concat(decimal_text(total_tile_bytes(&p.tile_sizes) as u64).as_str()).concat(", reference_slots=")
                .concat(decimal_text(p.reference_name_slot_indices.len() as u64).as_str()).concat(")"),
            Err(e) => unavailable_text(e.as_str()),
        },
        Err(e) => unavailable_text(e.as_str()),
    }
}

/// The decode operation of the first frame.
pub open spec fn first_info_status(d: DecodeInfo) -> Seq<char> {
    "ready(src_offset="@ + decimal(d.source as nat)
        + ", src_range="@ + decimal(d.range as nat)
        + ", vk_src_offset="@ + decimal(d.source as nat)
        + ", vk_src_range="@ + decimal(d.range as nat)
        + ", coded="@ + decimal(d.width as nat)
        + "x"@ + decimal(d.height as nat)
        + ", dst_extent="@ + decimal(d.width as nat)
        + "x"@ + decimal(d.height as nat)
        + ", setup_slot=0, setup_slot_chained=true, frame_header_offset="@ + decimal(d.picture.header as nat)
        + ", tile_count="@ + decimal(d.picture.offsets.len() as nat)
        + ")"@
}

pub open spec fn info_status(b: Seq<u8>) -> Seq<char> {
    match decode_infos(b) {
        Ok(infos) => first_info_status(infos[0]),
        Err(e) => unavailable(e),
    }
}

fn info_status_text(bitstream: &[u8]) -> (r: String)
    ensures
        r@ == info_status(bitstream@),
{
    match build_av1_decode_info_skeleton(bitstream) {
        Ok(d) => String::from_str("ready(src_offset=")
            .concat(decimal_text(d.src_buffer_offset as u64).as_str()).concat(", src_range=")
            .concat(decimal_text(d.src_buffer_range as u64).as_str()).concat(", vk_src_offset=")
            .concat(decimal_text(d.src_buffer_offset as u64).as_str()).concat(", vk_src_range=")
            .concat(decimal_text(d.src_buffer_range as u64).as_str()).concat(", coded=")
            .concat(decimal_text(d.coded_width as u64).as_str()).concat("x")
            .concat(decimal_text(d.coded_height as u64).as_str()).concat(", dst_extent=")
            .concat(decimal_text(d.coded_width as u64).as_str()).concat("x")
            .concat(decimal_text(d.coded_height as u64).as_str()).concat(", setup_slot=0, setup_slot_chained=true, frame_header_offset=")
            .concat(decimal_text(d.picture_info.frame_header_offset as u64).as_str()).concat(", tile_count=")
            .concat(decimal_text(d.tile_count() as u64).as_str()).concat(")"),
        Err(e) => unavailable_text(e.as_str()),
    }
}

/// The number of decode operations.
pub open spec fn count_status(b: Seq<u8>) -> Seq<char> {
    match decode_infos(b) {
        Ok(infos) => decimal(infos.len()),
        Err(e) => unavailable(e),
    }
}

fn count_status_text(bitstream: &[u8]) -> (r: String)
    ensures
        r@ == count_status(bitstream@),
{
    match build_av1_decode_info_skeletons(bitstream) {
        Ok(decodes) => {
            assert(info_views(decodes@).len() == decodes@.len());
            decimal_text(decodes.len() as u64)
        },
        Err(e) => unavailable_text(e.as_str()),
    }
}

// ---------------------------------------------------------------------------
// Commands

/// The setup slots of `n` frames in turn.
pub open spec fn slot_list(n: nat) -> Seq<Seq<char>> {
    Seq::new(n, |i: int| signed_decimal(i % 4))
}

/// The command that decodes from the bitstream, given the names of the image's usages.
pub open spec fn plain_command_status(
    infos: Seq<DecodeInfo>,
    image: Av1DecodeImagePlan,
    usage_name: Seq<char>,
) -> Seq<char> {
    "ready(frames="@ + decimal(infos.len() as nat)
        + ", coded="@ + decimal(infos[0].width as nat)
        + "x"@ + decimal(infos[0].height as nat)
        + ", begin_slots="@ + decimal(4)
        + ", begin_resources="@ + decimal(4)
        + ", frame_resources="@ + decimal(infos.len() as nat)
        + ", frame_bundles="@ + decimal(infos.len() as nat)
        + ", image_layers="@ + decimal(image.array_layers as nat)
        + ", image_create_layers="@ + decimal(image.create_layers as nat)
        + ", image_usage="@ + usage_name
        + ", begin_reference_slots="@ + decimal(4)
        + ", vk_begin_refs="@ + decimal(4)
        + ", reset=true, end_flags_empty=true, record_steps="@ + decimal(infos.len() + 3)
        + ", slots="@ + joined(slot_list(infos.len()), "/"@)
        + ")"@
}

fn slot_list_text(command: &Av1DecodeCommandSkeleton, Ghost(infos): Ghost<Seq<DecodeInfo>>) -> (r: String)
    requires
        commands(*command, infos, 4),
    ensures
        r@ == joined(slot_list(infos.len()), "/"@),
{
    let mut parts: Vec<String> = Vec::new();
    let mut i: usize = 0;
    while i < command.frames.len()
        invariant
            i <= command.frames.len(),
            commands(*command, infos, 4),
            parts@.len() == i,
            forall|k: int| 0 <= k < i ==> (#[trigger] parts@[k])@ == signed_decimal(k % 4),
        decreases command.frames.len() - i,
    {
        assert(command.frames@[i as int] == super::command::frame_command(infos, 4, i as int));
        parts.push(signed_text(command.frames[i].setup_slot_index as i64));
        i = i + 1;
    }
    assert(views(parts@) =~= slot_list(infos.len()));
    join_text(&parts, "/")
}

fn plain_command_status_text(
    command: &Av1DecodeCommandSkeleton,
    image: Av1DecodeImagePlan,
    usage_name: &str,
    Ghost(infos): Ghost<Seq<DecodeInfo>>,
) -> (r: String)
    requires
        command_fault(infos, 4) is None,
        commands(*command, infos, 4),
        0 <= infos[0].width <= u32::MAX,
        0 <= infos[0].height <= u32::MAX,
        infos.len() <= usize::MAX,
    ensures
        r@ == plain_command_status(infos, image, usage_name@),
{
    let n: usize = command.frames.len();
    proof {
        law_built_commands_are_consistent(*command, infos, 4, infos.len());
        assert(command.frames@.len() == infos.len());
    }
    let begin_resources = command.begin_picture_resources();
    let references = command.begin_std_reference_infos();
    let frame_resources: usize = match command.frame_picture_resources() {
        Ok(list) => list.len(),
        Err(_) => 0,
    };
    let frame_bundles: usize = match command.frame_record_bundles() {
        Ok(list) => list.len(),
        Err(_) => 0,
    };
    let (reference_slots, begin_refs): (usize, usize) = match command.begin_reference_slots(
        &begin_resources,
        &references,
    ) {
        Ok(slots) => (
            slots.len(),
            match command.vk_begin_coding_info(&slots) {
                Ok(count) => count,
                Err(_) => 0,
            },
        ),
        Err(_) => (0, 0),
    };
    let steps = command.record_steps();
    let slots = slot_list_text(command, Ghost(infos));
    String::from_str("ready(frames=")
        .concat(decimal_text(n as u64).as_str()).concat(", coded=")
        .concat(decimal_text(command.coded_width as u64).as_str()).concat("x")
        .concat(decimal_text(command.coded_height as u64).as_str()).concat(", begin_slots=")
        .concat(decimal_text(command.begin_slots.len() as u64).as_str()).concat(", begin_resources=")
        .concat(decimal_text(begin_resources.len() as u64).as_str()).concat(", frame_resources=")
        .concat(decimal_text(frame_resources as u64).as_str()).concat(", frame_bundles=")
        .concat(decimal_text(frame_bundles as u64).as_str()).concat(", image_layers=")
        .concat(decimal_text(image.array_layers as u64).as_str()).concat(", image_create_layers=")
        .concat(decimal_text(image.create_layers as u64).as_str()).concat(", image_usage=")
        .concat(usage_name).concat(", begin_reference_slots=")
        .concat(decimal_text(reference_slots as u64).as_str()).concat(", vk_begin_refs=")
        .concat(decimal_text(begin_refs as u64).as_str()).concat(", reset=true, end_flags_empty=true, record_steps=")
        .concat(decimal_text(steps.len() as u64).as_str()).concat(", slots=")
        .concat(slots.as_str()).concat(")")
}

/// The upload buffer of a length and the command that decodes from it.
pub open spec fn upload_status(
    held: Seq<DecodeInfo>,
    length: int,
    offset_alignment: u64,
    size_alignment: u64,
    source: Seq<char>,
) -> Seq<char> {
    "; aligned_upload=ready(bytes="@ + decimal(length as nat)
        + ", frames="@ + decimal(held.len() as nat)
        + ", submit_bundles="@ + decimal(held.len() as nat)
        + ", first_decode_info=true, decode_info_loop="@ + decimal(held.len() as nat)
        + ", command_sequence=true, record_summary=1/1/"@ + decimal(held.len() as nat)
        + "/1, record_summary_valid=true, sequence_visits="@ + decimal(held.len() + 3)
        + ", sequence_decodes="@ + decimal(held.len() as nat)
        + ", sequence_begin_refs=4, sequence_reset=true, sequence_first_decode_offset="@ + decimal(held[0].source as nat)
        + ", sequence_end_empty=true, offset_align="@ + decimal(offset_alignment as nat)
        + ", size_align="@ + decimal(size_alignment as nat)
        + ", align_source="@ + source
        + ", first_offset="@ + decimal(held[0].source as nat)
        + ", first_range="@ + decimal(held[0].range as nat)
        + ")"@
}

fn upload_status_text(
    plan: &Av1DecodeBitstreamUploadPlan,
    command: &Av1DecodeCommandSkeleton,
    offset_alignment: u64,
    size_alignment: u64,
    source: &str,
    Ghost(held): Ghost<Seq<DecodeInfo>>,
) -> (r: String)
    requires
        held.len() > 0,
        held.len() + 3 <= usize::MAX,
        commands(*command, held, 4),
        info_views(plan.decodes@) == held,
        submit_fault(*plan, *command) is None,
    ensures
        r@ == upload_status(held, plan.bytes@.len() as int, offset_alignment, size_alignment, source@),
{
    let n: usize = command.frames.len();
    proof {
        assert(command.frames@[0] == super::command::frame_command(held, 4, 0));
        assert(held[0] == plan.decodes@[0]@);
        assert(record_bundles(*command, command.frames@.len()) is Ok);
        super::submit::law_accepted_ranges_lie_in_the_buffer(*plan, *command, 0);
    }
    let bundles: usize = match plan.frame_submit_bundles(command) {
        Ok(list) => list.len(),
        Err(_) => 0,
    };
    let decodes: usize = match plan.with_frame_decode_infos(command) {
        Ok(list) => list.len(),
        Err(_) => 0,
    };
    let (visits, _outcome) = plan.visit_decode_command_sequence(command);
    proof {
        lemma_bundles_ok(*command, command.frames@.len());
    }
    String::from_str("; aligned_upload=ready(bytes=")
        .concat(decimal_text(plan.bytes.len() as u64).as_str()).concat(", frames=")
        .concat(decimal_text(n as u64).as_str()).concat(", submit_bundles=")
        .concat(decimal_text(bundles as u64).as_str()).concat(", first_decode_info=true, decode_info_loop=")
        .concat(decimal_text(decodes as u64).as_str()).concat(", command_sequence=true, record_summary=1/1/")
        .concat(decimal_text(n as u64).as_str()).concat("/1, record_summary_valid=true, sequence_visits=")
        .concat(decimal_text(visits.len() as u64).as_str()).concat(", sequence_decodes=")
        .concat(decimal_text(n as u64).as_str()).concat(", sequence_begin_refs=4, sequence_reset=true, sequence_first_decode_offset=")
        .concat(decimal_text(command.frames[0].src_buffer_offset as u64).as_str()).concat(", sequence_end_empty=true, offset_align=")
        .concat(decimal_text(offset_alignment as u64).as_str()).concat(", size_align=")
        .concat(decimal_text(size_alignment as u64).as_str()).concat(", align_source=")
        .concat(source).concat(", first_offset=")
        .concat(decimal_text(command.frames[0].src_buffer_offset as u64).as_str()).concat(", first_range=")
        .concat(decimal_text(command.frames[0].src_buffer_range as u64).as_str()).concat(")")
}

/// The alignments and where they come from.
pub open spec fn status_alignments(session: Result<Av1DecodeBitstreamSessionProbe, String>) -> (
    u64,
    u64,
    Seq<char>,
) {
    match session {
        Ok(p) => (
            p.min_bitstream_buffer_offset_alignment,
            p.min_bitstream_buffer_size_alignment,
            "capability"@,
        ),
        Err(_) => (4096, 4096, "fallback"@),
    }
}

/// The commands for a bitstream.
pub open spec fn command_status(
    b: Seq<u8>,
    session: Result<Av1DecodeBitstreamSessionProbe, String>,
    image: Av1DecodeImagePlan,
    usage_name: Seq<char>,
) -> Seq<char> {
    match decode_infos(b) {
        Err(e) => unavailable(e),
        Ok(infos) => {
            let (oa, sa, source) = status_alignments(session);
            match upload_fault(infos, oa as int, sa as int, infos.len()) {
                Some(e) => unavailable(e),
                None => plain_command_status(infos, image, usage_name) + upload_status(
                    all_placed(infos, oa as int, sa as int),
                    upload_len(infos, oa as int, sa as int, infos.len()),
                    oa,
                    sa,
                    source,
                ),
            }
        },
    }
}

/// The upload buffer with the alignments of the session can be allocated, as far as
/// frames are placed in it.
pub open spec fn status_fits(
    b: Seq<u8>,
    session: Result<Av1DecodeBitstreamSessionProbe, String>,
) -> bool {
    let (oa, sa, source) = status_alignments(session);
    decode_infos(b) matches Ok(infos) ==> upload_allocatable(
        infos,
        oa as int,
        sa as int,
        infos.len(),
    )
}

fn command_status_text(
    bitstream: &[u8],
    session: &Result<Av1DecodeBitstreamSessionProbe, String>,
    image: Av1DecodeImagePlan,
    usage_name: &str,
) -> (r: String)
    requires
        status_fits(bitstream@, *session),
    ensures
        r@ == command_status(bitstream@, *session, image, usage_name@),
{
    let command = match build_av1_key_frame_decode_command_skeleton(
        bitstream,
        STATUS_DPB_SLOTS,
    ) {
        Ok(command) => command,
        Err(e) => {
            proof {
                if decode_infos(bitstream@) is Ok {
                    law_decode_infos_in_bounds(bitstream@);
                }
            }
            return unavailable_text(e.as_str());
        },
    };
    let ghost infos = decode_infos(bitstream@)->Ok_0;
    proof {
        law_decode_infos_in_bounds(bitstream@);
        assert(0 <= infos[0].source);
    }
    let count: usize = command.frames.len();
    assert(infos.len() == count);
    let plain = plain_command_status_text(&command, image, usage_name, Ghost(infos));
    let (offset_alignment, size_alignment, source): (u64, u64, &'static str) = match session {
        Ok(p) => (
            p.min_bitstream_buffer_offset_alignment,
            p.min_bitstream_buffer_size_alignment,
            "capability",
        ),
        Err(_) => (FALLBACK_ALIGNMENT, FALLBACK_ALIGNMENT, "fallback"),
    };
    let ghost held = all_placed(infos, offset_alignment as int, size_alignment as int);
    let limit: usize = bitstream.len();
    match build_av1_aligned_key_frame_decode_command_skeleton(
        bitstream,
        STATUS_DPB_SLOTS,
        offset_alignment,
        size_alignment,
    ) {
        Ok((plan, aligned)) => {
            proof {
                assert(reads_inside(infos, bitstream@.len()));
                lemma_placed_frames_fit(
                    infos,
                    offset_alignment as int,
                    size_alignment as int,
                    infos.len(),
                );
                lemma_upload_len_counts(
                    infos,
                    offset_alignment as int,
                    size_alignment as int,
                    infos.len(),
                );
                lemma_upload_grows(
                    infos,
                    offset_alignment as int,
                    size_alignment as int,
                    0,
                    infos.len(),
                );
                law_built_plan_and_command_fit(
                    bitstream@,
                    infos,
                    offset_alignment as int,
                    size_alignment as int,
                    4,
                    plan,
                    aligned,
                );
                lemma_upload_bytes_len(
                    bitstream@,
                    infos,
                    offset_alignment as int,
                    size_alignment as int,
                    infos.len(),
                );
            }
            let upload = upload_status_text(
                &plan,
                &aligned,
                offset_alignment,
                size_alignment,
                source,
                Ghost(held),
            );
            plain.concat(upload.as_str())
        },
        Err(e) => unavailable_text(e.as_str()),
    }
}

// ---------------------------------------------------------------------------
// The whole message

pub open spec fn optional_number(value: Option<nat>, absent: Seq<char>) -> Seq<char> {
    match value {
        Some(n) => decimal(n),
        None => absent,
    }
}

fn optional_number_text(value: Option<u64>, absent: &str) -> (r: String)
    ensures
        r@ == optional_number(
            match value {
                Some(n) => Some(n as nat),
                None => None,
            },
            absent@,
        ),
{
    match value {
        Some(n) => decimal_text(n),
        None => String::from_str(absent),
    }
}

/// What was found in a bitstream.
pub open spec fn found_status(i: Av1BitstreamInspection) -> Seq<char> {
    "; parsed AV1 OBUs: obu_count="@ + decimal(i.obu_count as nat) + ", temporal_units="@ + decimal(
        i.temporal_unit_count as nat,
    ) + ", sequence_header="@ + bool_chars(i.has_sequence_header) + ", frame_payload="@
        + bool_chars(i.has_frame_payload) + ", sequence_header_obu_len="@ + optional_number(
        match i.sequence_header_obu_len {
            Some(n) => Some(n as nat),
            None => None,
        },
        "none"@,
    ) + ", coded="@ + optional_number(
        match i.coded_width {
            Some(n) => Some(n as nat),
            None => None,
        },
        "unknown"@,
    ) + "x"@ + optional_number(
        match i.coded_height {
            Some(n) => Some(n as nat),
            None => None,
        },
        "unknown"@,
    )
}

fn found_status_text(i: &Av1BitstreamInspection) -> (r: String)
    ensures
        r@ == found_status(*i),
{
    let header_len = optional_number_text(
        match i.sequence_header_obu_len {
            Some(n) => Some(n as u64),
            None => None,
        },
        "none",
    );
    let width = optional_number_text(
        match i.coded_width {
            Some(n) => Some(n as u64),
            None => None,
        },
        "unknown",
    );
    let height = optional_number_text(
        match i.coded_height {
            Some(n) => Some(n as u64),
            None => None,
        },
        "unknown",
    );
    String::from_str("; parsed AV1 OBUs: obu_count=").concat(
        decimal_text(i.obu_count as u64).as_str(),
    ).concat(", temporal_units=").concat(
        decimal_text(i.temporal_unit_count as u64).as_str(),
    ).concat(", sequence_header=").concat(bool_text(i.has_sequence_header)).concat(
        ", frame_payload=",
    ).concat(bool_text(i.has_frame_payload)).concat(", sequence_header_obu_len=").concat(
        header_len.as_str(),
    ).concat(", coded=").concat(width.as_str()).concat("x").concat(height.as_str())
}

/// All that is told of a bitstream, given the names of formats and usages.
pub open spec fn bitstream_status(
    probe: Av1DecodePrerequisiteProbe,
    b: Seq<u8>,
    session: Result<Av1DecodeBitstreamSessionProbe, String>,
    image: Av1DecodeImagePlan,
    name: Seq<char>,
    usage_name: Seq<char>,
) -> Seq<char> {
    prerequisite_status(probe) + (match inspection(b) {
        Err(e) => "; OBU inspection failed: "@ + e,
        Ok(i) => found_status(i) + ", std_sequence_header="@ + header_status(b)
            + ", bitstream_session_parameters="@ + session_status(session, name)
            + ", submit_skeleton="@ + submit_status(b) + ", picture_info_skeleton="@
            + picture_status(b) + ", decode_info_skeleton="@ + info_status(b)
            + ", decode_info_count="@ + count_status(b) + ", command_skeleton="@ + command_status(
            b,
            session,
            image,
            usage_name,
        ),
    })
}

/// All that is told of a bitstream, given the names of formats and usages.
pub fn av1_bitstream_status_named(
    probe: &Av1DecodePrerequisiteProbe,
    bitstream: &[u8],
    session: &Result<Av1DecodeBitstreamSessionProbe, String>,
    image: Av1DecodeImagePlan,
    format_name: &str,
    usage_name: &str,
) -> (r: String)
    requires
        inspection(bitstream@) is Ok ==> tiles_countable(bitstream@) && status_fits(
            bitstream@,
            *session,
        ),
    ensures
        r@ == bitstream_status(
            *probe,
            bitstream@,
            *session,
            image,
            format_name@,
            usage_name@,
        ),
{
    let start = av1_decode_blocker_message(probe);
    let rest = match inspect_av1_low_overhead_obus(bitstream) {
        Err(e) => String::from_str("; OBU inspection failed: ").concat(e.as_str()),
        Ok(i) => found_status_text(&i).concat(", std_sequence_header=").concat(
            header_status_text(bitstream).as_str(),
        ).concat(", bitstream_session_parameters=").concat(
            session_status_text(session, format_name).as_str(),
        ).concat(", submit_skeleton=").concat(submit_status_text(bitstream).as_str()).concat(
            ", picture_info_skeleton=",
        ).concat(picture_status_text(bitstream).as_str()).concat(
            ", decode_info_skeleton=",
        ).concat(info_status_text(bitstream).as_str()).concat(", decode_info_count=").concat(
            count_status_text(bitstream).as_str(),
        ).concat(", command_skeleton=").concat(
            command_status_text(bitstream, session, image, usage_name).as_str(),
        ),
    };
    start.concat(rest.as_str())
}

/// Why a bitstream cannot be decoded: what is missing here, and all that can be told
/// of the bitstream itself.
pub fn av1_decode_blocker_message_with_bitstream(
    probe: &Av1DecodePrerequisiteProbe,
    bitstream: &[u8],
    session: &Result<Av1DecodeBitstreamSessionProbe, String>,
    image: Av1DecodeImagePlan,
) -> (r: String)
    requires
        inspection(bitstream@) is Ok ==> tiles_countable(bitstream@) && status_fits(
            bitstream@,
            *session,
        ),
    ensures
        r@ == bitstream_status(
            *probe,
            bitstream@,
            *session,
            image,
            match *session {
                Ok(p) => format_name(p.picture_format),
                Err(_) => ""@,
            },
            image_usage_name(image.usage),
        ),
{
    let name = match session {
        Ok(p) => format_name_text(p.picture_format),
        Err(_) => String::from_str(""),
    };
    let usage = image_usage_name_text(image.usage);
    av1_bitstream_status_named(
        probe,
        bitstream,
        session,
        image,
        name.as_str(),
        usage.as_str(),
    )
}

} // verus!
