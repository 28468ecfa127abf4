//! What the checks of AV1 devices amount to, and what the planned commands decode.

use super::command::{
    lemma_bundles_ok, record_bundle, record_bundles, slot_position, Av1BeginCodingSlotSkeleton,
    Av1DecodeCommandSkeleton, Av1DecodeFrameRecordBundle, Av1DecodeRecordStep,
};
use super::decode::{decode_infos, law_decode_infos_in_bounds};
use super::decode_laws::law_decodes_follow_the_frames;
use super::plan::{
    law_upload_keeps_frames, placed, reads_inside, upload_bytes, upload_fits,
    Av1DecodeBitstreamUploadPlan,
};
use super::skeleton::{bitstream_frames, total};
use super::submit::{
    all_upload_ranges, frame_decode, lemma_ranges_ok, submit_fault, upload_range, upload_ranges, visits,
    Av1DecodeCommandVisit,
};
use super::support::{
    high_bit, max_alignment, probe_header, total_size, Av1DecodeCapabilitySnapshot,
    Av1DecodeExtensionFlags, MemoryRequirement,
};
use vstd::arithmetic::power2::{lemma2_to64, lemma_pow2_unfold, pow2};
use vstd::prelude::*;
use vstd::string::*;

verus! {

// ---------------------------------------------------------------------------
// Uploads

/// From the stream to the upload nothing is lost: at the place that a frame has in the upload
/// stand the bytes of each of its tiles, as they stand in the stream.
pub proof fn law_uploads_hold_the_tiles(
    b: Seq<u8>,
    offset_alignment: int,
    size_alignment: int,
    k: int,
    t: int,
)
    requires
        decode_infos(b) is Ok,
        0 <= offset_alignment,
        0 <= size_alignment,
        b.len() <= u64::MAX,
        upload_fits(
            decode_infos(b)->Ok_0,
            offset_alignment,
            size_alignment,
            decode_infos(b)->Ok_0.len(),
        ),
        0 <= k < bitstream_frames(b)->Ok_0.len(),
        0 <= t < bitstream_frames(b)->Ok_0[k].offsets.len(),
    ensures
        ({
            let infos = decode_infos(b)->Ok_0;
            let bytes = upload_bytes(b, infos, offset_alignment, size_alignment, infos.len());
            let here = placed(infos, offset_alignment, size_alignment, k);
            let frame = bitstream_frames(b)->Ok_0[k];
            let from = here.source + here.picture.offsets[t];
            let size = frame.sizes[t] as int;
            &&& 0 <= from
            &&& from + size <= here.source + here.range <= bytes.len()
            &&& bytes.subrange(from, from + size) == b.subrange(
                frame.offsets[t] as int,
                frame.offsets[t] + size,
            )
        }),
{
    let infos = decode_infos(b)->Ok_0;
    let frames = bitstream_frames(b)->Ok_0;
    law_decode_infos_in_bounds(b);
    assert(reads_inside(infos, b.len()));
    law_decodes_follow_the_frames(b, k);
    law_upload_keeps_frames(b, infos, offset_alignment, size_alignment, k, infos.len());
    let bytes = upload_bytes(b, infos, offset_alignment, size_alignment, infos.len());
    let here = placed(infos, offset_alignment, size_alignment, k);
    let info = infos[k];
    let frame = frames[k];
    let size = frame.sizes[t] as int;
    let offset = info.picture.offsets[t] as int;
    super::decode_laws::lemma_tile_in_range(b, k, t);
    let whole = bytes.subrange(here.source, here.source + info.range);
    let part = b.subrange(info.source, info.source + info.range);
    assert(whole == part);
    let from = here.source + offset;
    assert(bytes.subrange(from, from + size) =~= whole.subrange(offset, offset + size));
    assert(b.subrange(frame.offsets[t] as int, frame.offsets[t] + size) =~= part.subrange(
        offset,
        offset + size,
    ));
}

/// The bytes of tiles add up tile by tile.
pub proof fn law_tile_bytes_add_up(first: Seq<u32>, second: Seq<u32>)
    ensures
        total(first + second) == total(first) + total(second),
        first.len() == 1 ==> total(first) == first[0],
    decreases second.len(),
{
    reveal_with_fuel(total, 2);
    if second.len() == 0 {
        assert(first + second =~= first);
    } else {
        assert((first + second).drop_last() =~= first + second.drop_last());
        law_tile_bytes_add_up(first, second.drop_last());
    }
}

/// A command is recorded as a begin, a reset, one decode for each frame in its order, and an
/// end.
pub proof fn law_commands_are_recorded_in_order(command: Av1DecodeCommandSkeleton, i: int)
    requires
        0 <= i < command.frames@.len(),
        command.begin_slots@.len() <= usize::MAX,
    ensures
        ({
            let steps = command.steps();
            let frame = command.frames@[i];
            &&& steps.len() == command.frames@.len() + 3
            &&& steps[0] matches Av1DecodeRecordStep::BeginCoding { reference_slot_count }
                && reference_slot_count == command.begin_slots@.len()
            &&& steps[1] is ResetCoding
            &&& steps[steps.len() - 1] is EndCoding
            &&& steps[i + 2] == (Av1DecodeRecordStep::DecodeFrame {
                frame_index: frame.frame_index,
                temporal_unit_index: frame.temporal_unit_index,
                setup_slot_index: frame.setup_slot_index,
                src_buffer_offset: frame.src_buffer_offset,
                src_buffer_range: frame.src_buffer_range,
                tile_count: frame.tile_count,
            })
        }),
{
}

/// A frame can be recorded: it has its own number, and the first slot with the index that it
/// is set up in has a layer of the same number.
pub open spec fn is_recordable(command: Av1DecodeCommandSkeleton, i: int) -> bool {
    let frame = command.frames@[i];
    &&& frame.frame_index == i
    &&& frame.setup_slot_index >= 0
    &&& exists|s: int|
        0 <= s < command.begin_slots@.len() && (#[trigger] command.begin_slots@[s]).slot_index
            == frame.setup_slot_index && command.begin_slots@[s].base_array_layer
            == frame.setup_slot_index && forall|r: int|
            0 <= r < s ==> (#[trigger] command.begin_slots@[r]).slot_index != frame.setup_slot_index
}

proof fn lemma_slot_position(slots: Seq<Av1BeginCodingSlotSkeleton>, index: i32, from: int)
    requires
        0 <= from <= slots.len(),
    ensures
        from <= slot_position(slots, index, from) <= slots.len(),
        slot_position(slots, index, from) < slots.len() ==> slots[slot_position(
            slots,
            index,
            from,
        )].slot_index == index,
        forall|r: int|
            from <= r < slot_position(slots, index, from) ==> (#[trigger] slots[r]).slot_index
                != index,
    decreases slots.len() - from,
{
    if from < slots.len() && slots[from].slot_index != index {
        lemma_slot_position(slots, index, from + 1);
    }
}

/// A frame is recorded if and only if it can be, in the layer of its slot and with all that
/// its command says.
pub proof fn law_frames_are_recorded_in_their_slots(command: Av1DecodeCommandSkeleton, i: int)
    requires
        0 <= i < command.frames@.len(),
        command.frames@.len() <= usize::MAX,
    ensures
        record_bundle(command, i) is Ok <==> is_recordable(command, i),
        record_bundle(command, i) matches Ok(bundle) ==> {
            let frame = command.frames@[i];
            &&& bundle.frame_index == i
            &&& bundle.decode_info_index == i
            &&& bundle.temporal_unit_index == frame.temporal_unit_index
            &&& bundle.setup_slot_index == frame.setup_slot_index
            &&& bundle.dst_base_array_layer == frame.setup_slot_index
            &&& bundle.src_buffer_offset == frame.src_buffer_offset
            &&& bundle.src_buffer_range == frame.src_buffer_range
            &&& bundle.tile_count == frame.tile_count
        },
{
    let frame = command.frames@[i];
    let slots = command.begin_slots@;
    lemma_slot_position(slots, frame.setup_slot_index, 0);
    let at = slot_position(slots, frame.setup_slot_index, 0);
    if at < slots.len() {
        assert(slots[at].slot_index == frame.setup_slot_index);
    }
    if is_recordable(command, i) {
        let s = choose|s: int|
            0 <= s < slots.len() && (#[trigger] slots[s]).slot_index == frame.setup_slot_index
                && slots[s].base_array_layer == frame.setup_slot_index && forall|r: int|
                0 <= r < s ==> (#[trigger] slots[r]).slot_index != frame.setup_slot_index;
        assert(s == at);
    }
}

/// A plan and a command are taken together if and only if they have as many frames, each frame
/// of the command has its own number and reads the very range of the upload that the plan
/// has for it, and that range lies in the upload. Each decode then reads this range.
pub proof fn law_plans_and_commands_name_the_same_ranges(
    plan: Av1DecodeBitstreamUploadPlan,
    command: Av1DecodeCommandSkeleton,
)
    requires
        plan.bytes@.len() <= usize::MAX,
    ensures
        all_upload_ranges(plan, command) is Ok <==> command.frames@.len() == plan.decodes@.len()
            && forall|i: int|
            0 <= i < command.frames@.len() ==> #[trigger] reads_its_range(plan, command, i),
        all_upload_ranges(plan, command) matches Ok(ranges) ==> ranges.len()
            == command.frames@.len() && forall|i: int|
            0 <= i < ranges.len() ==> (#[trigger] ranges[i]).0
                == plan.decodes@[i].src_buffer_offset && ranges[i].1
                == plan.decodes@[i].src_buffer_offset + plan.decodes@[i].src_buffer_range,
{
    let n = command.frames@.len();
    lemma_ranges(plan, command, n);
    if all_upload_ranges(plan, command) is Ok {
        let ranges = all_upload_ranges(plan, command)->Ok_0;
        lemma_ranges_ok(plan, command, n);
        assert forall|i: int| 0 <= i < ranges.len() implies (#[trigger] ranges[i]).0
            == plan.decodes@[i].src_buffer_offset && ranges[i].1
            == plan.decodes@[i].src_buffer_offset + plan.decodes@[i].src_buffer_range by {
            assert(upload_range(plan, command, i) == Ok::<(int, int), Seq<char>>(ranges[i]));
        }
    }
}

/// Frame `i` of a command reads what the plan has for frame `i`, inside the upload.
pub open spec fn reads_its_range(
    plan: Av1DecodeBitstreamUploadPlan,
    command: Av1DecodeCommandSkeleton,
    i: int,
) -> bool {
    let frame = command.frames@[i];
    &&& frame.frame_index == i
    &&& frame.src_buffer_offset == plan.decodes@[i].src_buffer_offset
    &&& frame.src_buffer_range == plan.decodes@[i].src_buffer_range
    &&& frame.src_buffer_offset + frame.src_buffer_range <= plan.bytes@.len()
}

proof fn lemma_ranges(
    plan: Av1DecodeBitstreamUploadPlan,
    command: Av1DecodeCommandSkeleton,
    n: nat,
)
    requires
        plan.bytes@.len() <= usize::MAX,
    ensures
        upload_ranges(plan, command, n) is Ok <==> forall|i: int|
            0 <= i < n ==> #[trigger] reads_its_range(plan, command, i),
    decreases n,
{
    if n > 0 {
        lemma_ranges(plan, command, (n - 1) as nat);
        let last = n - 1;
        assert(upload_range(plan, command, last) is Ok <==> reads_its_range(plan, command, last));
    }
}

/// What is decoded of a frame: its range of the upload, into the layer of its slot, at the
/// size that the plan has for it.
pub proof fn law_frame_decodes_join_plan_and_command(
    plan: Av1DecodeBitstreamUploadPlan,
    command: Av1DecodeCommandSkeleton,
    i: int,
)
    requires
        submit_fault(plan, command) is None,
        0 <= i < command.frames@.len() <= usize::MAX,
        plan.bytes@.len() <= usize::MAX,
    ensures
        ({
            let decode = frame_decode(plan, command, i);
            let frame = command.frames@[i];
            let planned = plan.decodes@[i];
            &&& decode.frame_index == i
            &&& decode.decode_info_index == i
            &&& decode.temporal_unit_index == frame.temporal_unit_index
            &&& decode.setup_slot_index == frame.setup_slot_index
            &&& decode.dst_base_array_layer == frame.setup_slot_index
            &&& decode.tile_count == frame.tile_count
            &&& decode.src_buffer_offset == planned.src_buffer_offset
            &&& decode.src_buffer_range == planned.src_buffer_range
            &&& decode.upload_start == planned.src_buffer_offset
            &&& decode.upload_end == planned.src_buffer_offset + planned.src_buffer_range
            &&& decode.upload_end <= plan.bytes@.len()
            &&& decode.coded_width == planned.coded_width
            &&& decode.coded_height == planned.coded_height
            &&& visits(plan, command).len() == command.frames@.len() + 3
            &&& visits(plan, command)[0] is BeginCoding
            &&& visits(plan, command)[1] is ResetCoding
            &&& visits(plan, command)[i + 2] == Av1DecodeCommandVisit::DecodeFrame(decode)
            &&& visits(plan, command)[command.frames@.len() as int + 2] is EndCoding
        }),
{
    let n = command.frames@.len();
    lemma_bundles_ok(command, n);
    let bundle = record_bundles(command, n)->Ok_0[i];
    assert(record_bundle(command, i) == Ok::<Av1DecodeFrameRecordBundle, Seq<char>>(bundle));
    law_frames_are_recorded_in_their_slots(command, i);
    law_plans_and_commands_name_the_same_ranges(plan, command);
    let range = all_upload_ranges(plan, command)->Ok_0[i];
    assert(reads_its_range(plan, command, i));
}

// ---------------------------------------------------------------------------
// Devices

/// An extension is reported as missing if and only if it is, and two devices together have
/// what either has.
pub proof fn law_missing_decode_extensions_are_reported(
    a: Av1DecodeExtensionFlags,
    b: Av1DecodeExtensionFlags,
)
    ensures
        a.complete() <==> a.missing().len() == 0,
        a.missing().contains("VK_KHR_video_queue"@) <==> !a.has_video_queue,
        a.missing().contains("VK_KHR_video_decode_queue"@) <==> !a.has_video_decode_queue,
        a.missing().contains("VK_KHR_video_decode_av1"@) <==> !a.has_video_decode_av1,
        a.complete() ==> a.joined_with(b).complete(),
        a.joined_with(b) == b.joined_with(a),
{
    reveal_strlit("VK_KHR_video_queue");
    reveal_strlit("VK_KHR_video_decode_queue");
    reveal_strlit("VK_KHR_video_decode_av1");
    let x = "VK_KHR_video_queue"@;
    let y = "VK_KHR_video_decode_queue"@;
    let z = "VK_KHR_video_decode_av1"@;
    assert(x.len() != y.len() && x.len() != z.len() && y.len() != z.len());
    let first = if a.has_video_queue {
        Seq::empty()
    } else {
        seq![x]
    };
    let second = if a.has_video_decode_queue {
        first
    } else {
        first.push(y)
    };
    let all = a.missing();
    if !a.has_video_queue {
        assert(all[0] == x);
    }
    if !a.has_video_decode_queue {
        assert(all[first.len() as int] == y);
    }
    if !a.has_video_decode_av1 {
        assert(all[second.len() as int] == z);
    }
}

/// What a device tells of itself is accepted if and only if some picture of a size in its
/// range can be decoded: it has an output format, a range with no empty picture in it, a slot,
/// and no more references than slots. It then admits the ends of its range.
pub proof fn law_usable_capabilities_are_accepted(snapshot: Av1DecodeCapabilitySnapshot)
    ensures
        snapshot.fault() is None <==> snapshot.decode_output_formats@.len() >= 1 && 1
            <= snapshot.min_coded_width <= snapshot.max_coded_width && 1
            <= snapshot.min_coded_height <= snapshot.max_coded_height && snapshot.max_dpb_slots >= 1
            && snapshot.max_active_reference_pictures <= snapshot.max_dpb_slots,
        snapshot.fault() is None ==> snapshot.admits(
            snapshot.min_coded_width,
            snapshot.min_coded_height,
        ) && snapshot.admits(snapshot.max_coded_width, snapshot.max_coded_height),
        snapshot.fault() is None ==> !snapshot.admits(0, 0),
{
}

/// The highest bit of a number is the power of two below it, or the number itself.
pub proof fn law_high_bit_is_the_power_below(n: nat)
    requires
        n > 0,
    ensures
        pow2(high_bit(n)) <= n < pow2(high_bit(n) + 1),
    decreases n,
{
    lemma2_to64();
    lemma_pow2_unfold(high_bit(n) + 1);
    if n >= 2 {
        law_high_bit_is_the_power_below(n / 2);
        lemma_pow2_unfold(high_bit(n));
    }
}

/// The header that a device is tried with gives the size asked for, in just as many bits as
/// it takes.
pub proof fn law_probe_headers_give_the_size(width: u32, height: u32)
    requires
        2 <= width <= 0x1_0000,
        2 <= height <= 0x1_0000,
    ensures
        ({
            let header = probe_header(width, height);
            &&& header.max_frame_width_minus_1 + 1 == width
            &&& header.max_frame_height_minus_1 + 1 == height
            &&& header.max_frame_width_minus_1 < pow2((header.frame_width_bits_minus_1 + 1) as nat)
            &&& header.max_frame_height_minus_1 < pow2(
                (header.frame_height_bits_minus_1 + 1) as nat,
            )
            &&& pow2(header.frame_width_bits_minus_1 as nat) <= header.max_frame_width_minus_1
            &&& pow2(header.frame_height_bits_minus_1 as nat) <= header.max_frame_height_minus_1
            &&& header.frame_width_bits_minus_1 < 16
            &&& header.frame_height_bits_minus_1 < 16
        }),
{
    let w = (width - 1) as nat;
    let h = (height - 1) as nat;
    law_high_bit_is_the_power_below(w);
    law_high_bit_is_the_power_below(h);
    lemma2_to64();
    if high_bit(w) >= 16 {
        lemma_pow2_rises(16, high_bit(w));
    }
    if high_bit(h) >= 16 {
        lemma_pow2_rises(16, high_bit(h));
    }
}

proof fn lemma_pow2_rises(a: nat, b: nat)
    requires
        a <= b,
    ensures
        pow2(a) <= pow2(b),
{
    if a < b {
        vstd::arithmetic::power2::lemma_pow2_strictly_increases(a, b);
    }
}

/// Sizes of memory add up, and the alignment is one that is asked for and that none exceeds.
pub proof fn law_memory_is_summed_up(list: Seq<MemoryRequirement>, one: MemoryRequirement)
    ensures
        total_size(list.push(one)) == total_size(list) + one.size,
        total_size(Seq::<MemoryRequirement>::empty()) == 0,
        forall|i: int|
            0 <= i < list.len() ==> (#[trigger] list[i]).alignment <= max_alignment(list),
        list.len() > 0 ==> exists|i: int|
            0 <= i < list.len() && (#[trigger] list[i]).alignment == max_alignment(list),
        list.len() == 0 ==> max_alignment(list) == 0,
    decreases list.len(),
{
    assert(list.push(one).drop_last() =~= list);
    if list.len() > 0 {
        let rest = list.drop_last();
        let last = list.len() - 1;
        law_memory_is_summed_up(rest, one);
        assert forall|i: int| 0 <= i < list.len() implies (#[trigger] list[i]).alignment
            <= max_alignment(list) by {
            if i < last {
                assert(rest[i] == list[i]);
            }
        }
        if list[last].alignment > max_alignment(rest) || rest.len() == 0 {
            assert(list[last].alignment == max_alignment(list));
        } else {
            let i = choose|i: int|
                0 <= i < rest.len() && (#[trigger] rest[i]).alignment == max_alignment(rest);
            assert(list[i].alignment == max_alignment(list));
        }
    }
}

} // verus!
