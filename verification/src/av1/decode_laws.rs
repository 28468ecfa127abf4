//! How frames, their source ranges and their places in an upload go together.

use super::command::{commands, frame_command, Av1DecodeCommandSkeleton};
use super::decode::{
    decode_info, decode_infos, header_order_fault, infos_upto, law_decode_info_names_the_same_bytes,
    law_frames_start_in_bounds, source_range, span, tile_pairs, DecodeInfo, Picture,
};
use super::obu::{law_obus_in_order, obus, Av1ObuType, Obu};
use super::plan::{aligned, law_aligned, placed, upload_fits, upload_len, upload_offset};
use super::sequence::{sequence_header, ParsedAv1SequenceHeader};
use super::skeleton::{
    bitstream_frames, bitstream_header, carries_frame, first_frame, first_of_type, inspection, last_unit,
    std_sequence_header,
};
use vstd::prelude::*;

verus! {

// ---------------------------------------------------------------------------
// Source ranges

proof fn lemma_span_ends(picture: Picture, n: nat)
    requires
        span(picture, n) is Ok,
    ensures
        ({
            let (start, end) = span(picture, n)->Ok_0;
            &&& start == picture.header || exists|k: int|
                0 <= k < n && start == #[trigger] picture.offsets[k]
            &&& end == picture.header + 1 || exists|k: int|
                0 <= k < n && end == (#[trigger] picture.offsets[k]) + picture.sizes[k]
        }),
    decreases n,
{
    if n > 0 {
        lemma_span_ends(picture, (n - 1) as nat);
        let (start, end) = span(picture, n)->Ok_0;
        let (was, till) = span(picture, (n - 1) as nat)->Ok_0;
        if start != was {
            assert(start == picture.offsets[n - 1]);
        }
        if end != till {
            assert(end == picture.offsets[n - 1] + picture.sizes[n - 1]);
        }
    }
}

/// The source range of a picture holds nothing in front of the header and the tiles and
/// nothing behind them: it starts with the header or with a tile, and it ends with the
/// first byte of the header or with a tile.
pub proof fn law_source_range_is_tight(len: nat, picture: Picture)
    requires
        source_range(len, picture) is Ok,
    ensures
        ({
            let (start, size) = source_range(len, picture)->Ok_0;
            &&& start == picture.header || exists|k: int|
                0 <= k < tile_pairs(picture) && start == #[trigger] picture.offsets[k]
            &&& start + size == picture.header + 1 || exists|k: int|
                0 <= k < tile_pairs(picture) && start + size == (#[trigger] picture.offsets[k])
                    + picture.sizes[k]
        }),
{
    lemma_span_ends(picture, tile_pairs(picture));
}

/// A tile is not empty and ends at a length or before it.
pub open spec fn tile_inside(picture: Picture, k: int, len: int) -> bool {
    picture.sizes[k] > 0 && picture.offsets[k] + picture.sizes[k] <= len
}

proof fn lemma_span_found(picture: Picture, n: nat, len: int)
    requires
        0 <= picture.header,
        len <= u32::MAX,
        n <= tile_pairs(picture),
    ensures
        span(picture, n) is Ok && (span(picture, n)->Ok_0).1 <= len <==> picture.header + 1 <= len
            && forall|k: int| 0 <= k < n ==> #[trigger] tile_inside(picture, k, len),
    decreases n,
{
    if n > 0 {
        lemma_span_found(picture, (n - 1) as nat, len);
        if forall|k: int| 0 <= k < n ==> #[trigger] tile_inside(picture, k, len) {
            assert(tile_inside(picture, n - 1, len));
        }
        if span(picture, n) is Ok && (span(picture, n)->Ok_0).1 <= len {
            assert((span(picture, (n - 1) as nat)->Ok_0).1 <= len);
            assert(tile_inside(picture, n - 1, len));
        }
    }
}

/// A picture has a source range if and only if four bytes can address the bitstream, its
/// header lies in the bitstream, and its tiles lie in it and are not empty.
pub proof fn law_source_range_is_found(len: nat, picture: Picture)
    requires
        0 <= picture.header,
    ensures
        source_range(len, picture) is Ok <==> len <= u32::MAX && picture.header + 1 <= len
            && forall|k: int|
            0 <= k < tile_pairs(picture) ==> #[trigger] tile_inside(picture, k, len as int),
{
    if len <= u32::MAX {
        lemma_span_found(picture, tile_pairs(picture), len as int);
    }
}

// ---------------------------------------------------------------------------
// Frames

proof fn lemma_infos(
    len: nat,
    width: int,
    height: int,
    frames: Seq<super::skeleton::Submit>,
    n: nat,
    k: int,
)
    requires
        0 <= k < n,
        infos_upto(len, width, height, frames, n) is Ok,
    ensures
        infos_upto(len, width, height, frames, n)->Ok_0.len() == n,
        decode_info(len, width, height, frames[k]) == Ok::<DecodeInfo, Seq<char>>(
            infos_upto(len, width, height, frames, n)->Ok_0[k],
        ),
    decreases n,
{
    let before = infos_upto(len, width, height, frames, (n - 1) as nat)->Ok_0;
    if n > 1 {
        lemma_infos(len, width, height, frames, (n - 1) as nat, if k < n - 1 {
            k
        } else {
            0
        });
    } else {
        assert(before.len() == 0);
    }
    let list = infos_upto(len, width, height, frames, n)->Ok_0;
    if k < n - 1 {
        assert(list[k] == before[k]);
    }
}

/// What is decoded is what the stream holds: the frames in their order, each with its
/// temporal unit, its header and its tiles at their places in the stream.
pub proof fn law_decodes_follow_the_frames(b: Seq<u8>, k: int)
    requires
        decode_infos(b) is Ok,
        0 <= k < bitstream_frames(b)->Ok_0.len(),
    ensures
        decode_infos(b)->Ok_0.len() == bitstream_frames(b)->Ok_0.len(),
        ({
            let info = decode_infos(b)->Ok_0[k];
            let frame = bitstream_frames(b)->Ok_0[k];
            &&& info.temporal_unit == frame.temporal_unit
            &&& info.source + info.picture.header == frame.header
            &&& info.picture.sizes == frame.sizes
            &&& info.picture.offsets.len() == frame.offsets.len()
            &&& forall|t: int|
                0 <= t < frame.offsets.len() ==> info.source + (#[trigger] info.picture.offsets[t])
                    == frame.offsets[t]
        }),
{
    let header = bitstream_header(b)->Ok_0;
    let frames = bitstream_frames(b)->Ok_0;
    let width = header.max_frame_width_minus_1 + 1;
    let height = header.max_frame_height_minus_1 + 1;
    lemma_infos(b.len(), width, height, frames, frames.len(), k);
    law_frames_start_in_bounds(b);
    law_decode_info_names_the_same_bytes(b.len(), width, height, frames[k]);
}

/// The tiles of a frame lie in its source range.
pub proof fn lemma_tile_in_range(b: Seq<u8>, k: int, t: int)
    requires
        decode_infos(b) is Ok,
        0 <= k < bitstream_frames(b)->Ok_0.len(),
        0 <= t < bitstream_frames(b)->Ok_0[k].offsets.len(),
    ensures
        ({
            let info = decode_infos(b)->Ok_0[k];
            let frame = bitstream_frames(b)->Ok_0[k];
            info.picture.offsets[t] + frame.sizes[t] <= info.range
        }),
{
    let header = bitstream_header(b)->Ok_0;
    let frames = bitstream_frames(b)->Ok_0;
    let width = header.max_frame_width_minus_1 + 1;
    let height = header.max_frame_height_minus_1 + 1;
    lemma_infos(b.len(), width, height, frames, frames.len(), k);
    law_frames_start_in_bounds(b);
    law_decode_info_names_the_same_bytes(b.len(), width, height, frames[k]);
    let info = decode_infos(b)->Ok_0[k];
    assert(info.source + info.picture.offsets[t] == frames[k].offsets[t]);
}

// ---------------------------------------------------------------------------
// Headers

/// The unit at `h` is the first sequence header of the list.
pub open spec fn is_first_header(list: Seq<Obu>, h: int) -> bool {
    &&& 0 <= h < list.len()
    &&& list[h].obu_type == Av1ObuType::SequenceHeader
    &&& forall|i: int| 0 <= i < h ==> (#[trigger] list[i]).obu_type != Av1ObuType::SequenceHeader
}

pub open spec fn is_frame_part(obu: Obu) -> bool {
    obu.obu_type == Av1ObuType::Frame || obu.obu_type == Av1ObuType::FrameHeader || obu.obu_type
        == Av1ObuType::TileGroup
}

proof fn lemma_first_of_type(list: Seq<Obu>, obu_type: Av1ObuType, from: int)
    requires
        0 <= from <= list.len(),
    ensures
        from <= first_of_type(list, obu_type, from) <= list.len(),
        first_of_type(list, obu_type, from) < list.len() ==> list[first_of_type(
            list,
            obu_type,
            from,
        )].obu_type == obu_type,
        forall|i: int|
            from <= i < first_of_type(list, obu_type, from) ==> (#[trigger] list[i]).obu_type
                != obu_type,
    decreases list.len() - from,
{
    if from < list.len() && list[from].obu_type != obu_type {
        lemma_first_of_type(list, obu_type, from + 1);
    }
}

proof fn lemma_first_frame(list: Seq<Obu>, from: int)
    requires
        0 <= from <= list.len(),
    ensures
        from <= first_frame(list, from) <= list.len(),
        first_frame(list, from) < list.len() ==> is_frame_part(list[first_frame(list, from)]),
        forall|i: int| from <= i < first_frame(list, from) ==> !is_frame_part(#[trigger] list[i]),
    decreases list.len() - from,
{
    if from < list.len() && !carries_frame(list[from].obu_type) {
        lemma_first_frame(list, from + 1);
    }
}

/// The order of a stream is accepted if and only if it has a sequence header in front of
/// which no part of a frame stands.
pub proof fn law_a_header_comes_first(b: Seq<u8>)
    ensures
        header_order_fault(b) is None <==> obus(b) is Ok && exists|h: int|
            0 <= h < obus(b)->Ok_0.len() && (#[trigger] obus(b)->Ok_0[h]).obu_type
                == Av1ObuType::SequenceHeader && forall|f: int|
                0 <= f < h ==> !is_frame_part(#[trigger] obus(b)->Ok_0[f]),
{
    if obus(b) is Ok {
        let list = obus(b)->Ok_0;
        law_obus_in_order(b);
        lemma_first_of_type(list, Av1ObuType::SequenceHeader, 0);
        lemma_first_frame(list, 0);
        let h = first_of_type(list, Av1ObuType::SequenceHeader, 0);
        let f = first_frame(list, 0);
        if f < h && h < list.len() {
            assert(list[f].end <= list[h].start);
            assert(is_frame_part(list[f]));
        } else if h < f && f < list.len() {
            assert(list[h].end <= list[f].start);
        }
        if header_order_fault(b) is None {
            assert(list[h].obu_type == Av1ObuType::SequenceHeader);
            assert(forall|i: int| 0 <= i < h ==> !is_frame_part(#[trigger] list[i]));
        }
    }
}

/// The header of a stream is that of its first sequence header unit, read from the payload
/// of that unit alone.
pub proof fn law_the_first_header_counts(b: Seq<u8>, h: int)
    requires
        obus(b) is Ok,
        is_first_header(obus(b)->Ok_0, h),
    ensures
        match sequence_header(
            b.subrange(obus(b)->Ok_0[h].payload_start, obus(b)->Ok_0[h].end),
        ) {
            Ok(parsed) => bitstream_header(b) == std_sequence_header(parsed),
            Err(e) => bitstream_header(b) == Err::<super::skeleton::Av1StdSequenceHeader, _>(e),
        },
{
    let list = obus(b)->Ok_0;
    lemma_first_of_type(list, Av1ObuType::SequenceHeader, 0);
    let at = first_of_type(list, Av1ObuType::SequenceHeader, 0);
    assert(at == h) by {
        if at < h {
            assert(list[at].obu_type == Av1ObuType::SequenceHeader);
        }
    }
}

/// A header is handed on with its profile, its sizes and its flags, and the choice of
/// integer vectors and of screen content tools is left to each frame. Only profiles 0 to 2
/// are handed on.
pub proof fn law_headers_are_handed_on(parsed: ParsedAv1SequenceHeader)
    requires
        parsed.max_frame_width_minus_1 <= 0xffff,
        parsed.max_frame_height_minus_1 <= 0xffff,
    ensures
        std_sequence_header(parsed) is Ok <==> parsed.seq_profile <= 2,
        std_sequence_header(parsed) matches Ok(header) ==> {
            &&& header.seq_profile == parsed.seq_profile
            &&& header.max_frame_width_minus_1 == parsed.max_frame_width_minus_1
            &&& header.max_frame_height_minus_1 == parsed.max_frame_height_minus_1
            &&& header.frame_width_bits_minus_1 == parsed.frame_width_bits_minus_1
            &&& header.frame_height_bits_minus_1 == parsed.frame_height_bits_minus_1
            &&& header.still_picture == parsed.still_picture
            &&& header.reduced_still_picture_header == parsed.reduced_still_picture_header
            &&& header.use_128x128_superblock == parsed.use_128x128_superblock
            &&& header.enable_filter_intra == parsed.enable_filter_intra
            &&& header.enable_intra_edge_filter == parsed.enable_intra_edge_filter
            &&& header.seq_force_integer_mv == 2
            &&& header.seq_force_screen_content_tools == 2
        },
{
}

proof fn lemma_last_unit(list: Seq<Obu>)
    requires
        forall|i: int| 0 <= i < list.len() ==> 0 <= (#[trigger] list[i]).temporal_unit,
        forall|i: int, j: int|
            0 <= i <= j < list.len() ==> (#[trigger] list[i]).temporal_unit <= (
            #[trigger] list[j]).temporal_unit,
    ensures
        last_unit(list) == (if list.len() == 0 {
            0
        } else {
            list.last().temporal_unit
        }),
    decreases list.len(),
{
    if list.len() > 0 {
        let rest = list.drop_last();
        assert forall|i: int| 0 <= i < rest.len() implies 0 <= (#[trigger] rest[i]).temporal_unit by {
            assert(rest[i] == list[i]);
        }
        assert forall|i: int, j: int| 0 <= i <= j < rest.len() implies (
        #[trigger] rest[i]).temporal_unit <= (#[trigger] rest[j]).temporal_unit by {
            assert(rest[i] == list[i] && rest[j] == list[j]);
        }
        lemma_last_unit(rest);
        let last = list[list.len() - 1];
        assert(0 <= last.temporal_unit);
        if rest.len() > 0 {
            let before = list[list.len() - 2];
            assert(before.temporal_unit <= last.temporal_unit);
            assert(rest.last() == before);
        }
    }
}

proof fn lemma_units_rise(b: Seq<u8>, i: int, j: int)
    requires
        obus(b) is Ok,
        b.len() <= usize::MAX,
        0 <= i <= j < obus(b)->Ok_0.len(),
    ensures
        obus(b)->Ok_0[i].temporal_unit <= obus(b)->Ok_0[j].temporal_unit,
    decreases j - i,
{
    let list = obus(b)->Ok_0;
    super::obu_laws::law_units_fill_the_stream(b);
    if i < j {
        lemma_units_rise(b, i, j - 1);
        assert(list[j].temporal_unit == super::obu_laws::unit_after(list[j - 1], list[j].obu_type));
    }
}

/// What an inspection finds is what the stream holds: the number of its units and of its
/// temporal units, whether it has a sequence header and parts of frames, and the length of
/// the first header unit and the size that it gives.
pub proof fn law_inspection_tells_what_is_there(b: Seq<u8>)
    requires
        inspection(b) is Ok,
        b.len() <= usize::MAX,
    ensures
        obus(b) is Ok,
        ({
            let found = inspection(b)->Ok_0;
            let list = obus(b)->Ok_0;
            &&& found.obu_count == list.len() as usize
            &&& found.temporal_unit_count == (list.last().temporal_unit + 1) as usize
            &&& found.has_sequence_header <==> exists|h: int|
                0 <= h < list.len() && (#[trigger] list[h]).obu_type == Av1ObuType::SequenceHeader
            &&& found.has_frame_payload <==> exists|f: int|
                0 <= f < list.len() && is_frame_part(#[trigger] list[f])
            &&& found.sequence_header_obu_len is Some <==> found.has_sequence_header
            &&& found.coded_width is Some <==> found.has_sequence_header
            &&& found.coded_height is Some <==> found.has_sequence_header
            &&& forall|h: int| #[trigger]
                is_first_header(list, h) ==> found.sequence_header_obu_len == Some(
                    (list[h].end - list[h].start) as usize,
                ) && (sequence_header(
                    b.subrange(list[h].payload_start, list[h].end),
                ) matches Ok(parsed) && found.coded_width == Some(
                    (parsed.max_frame_width_minus_1 + 1) as u32,
                ) && found.coded_height == Some((parsed.max_frame_height_minus_1 + 1) as u32))
        }),
{
    let list = obus(b)->Ok_0;
    lemma_first_of_type(list, Av1ObuType::SequenceHeader, 0);
    lemma_first_frame(list, 0);
    let at = first_of_type(list, Av1ObuType::SequenceHeader, 0);
    assert forall|h: int| #[trigger] is_first_header(list, h) implies h == at by {
        if at < h {
            assert(list[at].obu_type == Av1ObuType::SequenceHeader);
        }
    }
    if at < list.len() {
        assert(list[at].obu_type == Av1ObuType::SequenceHeader);
    }
    let f = first_frame(list, 0);
    if f < list.len() {
        assert(is_frame_part(list[f]));
    }
    super::obu_laws::law_units_fill_the_stream(b);
    assert forall|i: int, j: int| 0 <= i <= j < list.len() implies (
    #[trigger] list[i]).temporal_unit <= (#[trigger] list[j]).temporal_unit by {
        lemma_units_rise(b, i, j);
    }
    assert forall|i: int| 0 <= i < list.len() implies 0 <= (#[trigger] list[i]).temporal_unit by {
        lemma_units_rise(b, 0, i);
    }
    lemma_last_unit(list);
}

// ---------------------------------------------------------------------------
// Uploads

/// Frames stand in an upload at multiples of the one alignment and with lengths that are
/// multiples of the other, with less than one alignment of padding each; the first stands
/// at its start, and the last ends where it ends. Nothing else of a frame is changed.
pub proof fn law_upload_places_are_aligned(
    infos: Seq<DecodeInfo>,
    offset_alignment: int,
    size_alignment: int,
    k: int,
)
    requires
        1 <= offset_alignment,
        1 <= size_alignment,
        0 <= k < infos.len(),
        forall|i: int| 0 <= i < infos.len() ==> 0 <= (#[trigger] infos[i]).range <= u64::MAX,
        upload_fits(infos, offset_alignment, size_alignment, (k + 1) as nat),
    ensures
        ({
            let here = placed(infos, offset_alignment, size_alignment, k);
            let from = if k == 0 {
                0
            } else {
                placed(infos, offset_alignment, size_alignment, k - 1).source + placed(
                    infos,
                    offset_alignment,
                    size_alignment,
                    k - 1,
                ).range
            };
            &&& here.source % offset_alignment == 0
            &&& here.range % size_alignment == 0
            &&& infos[k].range <= here.range < infos[k].range + size_alignment
            &&& from <= here.source < from + offset_alignment
            &&& k == 0 ==> here.source == 0
            &&& upload_len(infos, offset_alignment, size_alignment, (k + 1) as nat) == here.source
                + here.range
            &&& here.temporal_unit == infos[k].temporal_unit
            &&& here.width == infos[k].width
            &&& here.height == infos[k].height
            &&& here.picture == infos[k].picture
        }),
{
    let before = upload_len(infos, offset_alignment, size_alignment, k as nat);
    lemma_upload_len(infos, offset_alignment, size_alignment, k as nat);
    law_aligned(before, offset_alignment);
    law_aligned(infos[k].range, size_alignment);
    if k > 0 {
        assert(before == upload_offset(infos, offset_alignment, size_alignment, k - 1) + aligned(
            infos[k - 1].range,
            size_alignment,
        ));
    }
    lemma_upload_len(infos, offset_alignment, size_alignment, (k + 1) as nat);
    lemma_aligned_below(before, offset_alignment);
    lemma_aligned_below(infos[k].range, size_alignment);
    assert(0int % offset_alignment == 0) by (nonlinear_arith)
        requires
            offset_alignment >= 1,
    ;
}

proof fn lemma_aligned_below(value: int, alignment: int)
    requires
        0 <= value,
        1 <= alignment,
        aligned(value, alignment) < u64::MAX,
    ensures
        aligned(value, alignment) % alignment == 0,
{
    if alignment == 1 {
        assert(value % 1 == 0);
    } else if value % alignment != 0 {
        vstd::arithmetic::div_mod::lemma_fundamental_div_mod(value, alignment);
        let q = value / alignment;
        assert(value + (alignment - value % alignment) == (q + 1) * alignment) by (nonlinear_arith)
            requires
                value == alignment * q + value % alignment,
        ;
        vstd::arithmetic::div_mod::lemma_mod_multiples_basic(q + 1, alignment);
    }
}

proof fn lemma_upload_len(
    infos: Seq<DecodeInfo>,
    offset_alignment: int,
    size_alignment: int,
    n: nat,
)
    requires
        1 <= offset_alignment,
        1 <= size_alignment,
        n <= infos.len(),
        forall|i: int| 0 <= i < infos.len() ==> 0 <= (#[trigger] infos[i]).range <= u64::MAX,
        upload_fits(infos, offset_alignment, size_alignment, n),
    ensures
        0 <= upload_len(infos, offset_alignment, size_alignment, n) <= isize::MAX,
    decreases n,
{
    if n > 0 {
        lemma_upload_len(infos, offset_alignment, size_alignment, (n - 1) as nat);
        law_aligned(
            upload_len(infos, offset_alignment, size_alignment, (n - 1) as nat),
            offset_alignment,
        );
        law_aligned(infos[n - 1].range, size_alignment);
    }
}

// ---------------------------------------------------------------------------
// Commands

/// The frames of a command take the slots in turn, from the first one on and again from the
/// first one behind the last, and each is the frame of the same number with its source
/// range, its temporal unit and its count of tiles. Slot after slot has a layer of its own.
pub proof fn law_frames_take_slots_in_turn(
    command: Av1DecodeCommandSkeleton,
    infos: Seq<DecodeInfo>,
    slots: nat,
    i: int,
)
    requires
        commands(command, infos, slots),
        0 < slots <= 0x8000_0000,
        0 <= i < infos.len() <= usize::MAX,
        0 <= infos[i].temporal_unit <= usize::MAX,
        0 <= infos[i].source <= u64::MAX,
        0 <= infos[i].range <= u64::MAX,
        infos[i].picture.offsets.len() <= usize::MAX,
    ensures
        command.frames@.len() == infos.len(),
        ({
            let frame = command.frames@[i];
            &&& frame.frame_index == i
            &&& frame.temporal_unit_index == infos[i].temporal_unit
            &&& frame.src_buffer_offset == infos[i].source
            &&& frame.src_buffer_range == infos[i].range
            &&& frame.tile_count == infos[i].picture.offsets.len()
            &&& 0 <= frame.setup_slot_index < slots
            &&& i == 0 ==> frame.setup_slot_index == 0
            &&& i > 0 ==> frame.setup_slot_index == (if command.frames@[i - 1].setup_slot_index + 1
                == slots {
                0
            } else {
                command.frames@[i - 1].setup_slot_index + 1
            })
        }),
        command.begin_slots@.len() == slots,
        forall|s: int|
            0 <= s < slots ==> (#[trigger] command.begin_slots@[s]).slot_index == s
                && command.begin_slots@[s].base_array_layer == s,
{
    assert(command.frames@[i] == frame_command(infos, slots, i));
    assert(0 <= i % slots as int && i % (slots as int) < slots) by (nonlinear_arith)
        requires
            slots > 0,
            i >= 0,
    ;
    if i > 0 {
        assert(command.frames@[i - 1] == frame_command(infos, slots, i - 1));
        vstd::arithmetic::div_mod::lemma_mod_self_0(slots as int);
        vstd::arithmetic::div_mod::lemma_add_mod_noop(i - 1, 1, slots as int);
        let r = (i - 1) % slots as int;
        assert(0 <= r < slots) by (nonlinear_arith)
            requires
                slots > 0,
                i >= 1,
                r == (i - 1) % (slots as int),
        ;
        if r + 1 < slots {
            vstd::arithmetic::div_mod::lemma_fundamental_div_mod(i - 1, slots as int);
            vstd::arithmetic::div_mod::lemma_fundamental_div_mod_converse(
                i,
                slots as int,
                (i - 1) / slots as int,
                r + 1,
            );
        } else {
            vstd::arithmetic::div_mod::lemma_fundamental_div_mod(i - 1, slots as int);
            let q = (i - 1) / slots as int;
            assert(i == (q + 1) * (slots as int) + 0) by (nonlinear_arith)
                requires
                    i - 1 == (slots as int) * q + r,
                    r + 1 == slots,
            ;
            vstd::arithmetic::div_mod::lemma_fundamental_div_mod_converse(
                i,
                slots as int,
                (i - 1) / slots as int + 1,
                0,
            );
        }
    } else {
        assert(0int % slots as int == 0) by (nonlinear_arith)
            requires
                slots > 0,
        ;
    }
}

} // verus!
