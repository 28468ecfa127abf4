//! What decoded and encoded frames say of the data that they were made of.

use super::decode::{
    first_bad, first_unreadable, is_backend_frame, nv12_argb, raw_fault, readback_fault, summary_after, Av1Readback,
    RawFrame,
};
use super::encode::{filled, is_packet_of, EncodedFrame};
use super::hevc_decode::{
    displayed, first_faulty, is_unit_frame, law_decode_info_flags_can_be_read, sample_at, sample_fault,
    since_idr, slot_count, stream_fault, unit_fault, HevcAccessUnitHeader, HevcReadback,
};
use super::time::{frame_time, pts_step};
use crate::frame::{DecodeSummary, EncodedPacket, Frame};
use crate::order::{is_ranking, law_ordered_is_a_ranking, ordered};
use crate::pixel::{nv12_rgb, yuv_color, ColorConvertOptions, ColorMatrix, ColorRange};
use crate::pixel_laws::{law_packed_components, law_pixels_have_their_own_samples};
use crate::types::Codec;
use vstd::prelude::*;

verus! {

// ---------------------------------------------------------------------------
// Pixels

/// Pixel by pixel, an image without padding is turned into opaque colors: behind a byte of
/// full alpha stand red, green and blue of its own luma sample and of the chroma pair of its
/// two by two block, by BT.601 in the limited range.
pub proof fn law_opaque_pixels_have_their_own_samples(
    data: Seq<u8>,
    width: nat,
    height: nat,
    x: int,
    y: int,
)
    requires
        0 <= x < width,
        0 <= y < height,
    ensures
        ({
            let argb = nv12_argb(data, width, height);
            let at = 4 * (y * width + x);
            let pair = width * height + (y / 2) * width + (x - x % 2);
            &&& 0 <= at
            &&& at + 4 <= argb.len()
            &&& argb[at] == 255
            &&& (argb[at + 1], argb[at + 2], argb[at + 3]) == yuv_color(
                data[y * width + x],
                data[pair],
                data[pair + 1],
                ColorConvertOptions { matrix: ColorMatrix::Bt601, range: ColorRange::Limited },
            )
        }),
{
    let options = ColorConvertOptions { matrix: ColorMatrix::Bt601, range: ColorRange::Limited };
    let luma = (width * height) as int;
    law_pixels_have_their_own_samples(data, width as int, luma, options, width, height, x, y);
    let rgb = nv12_rgb(data, width as int, luma, options, width, height);
    crate::pixel::law_nv12_rgb_size(data, width as int, luma, options, width, height);
    let i = y * width + x;
    assert(0 <= y * width && y * width + width <= height * width) by (nonlinear_arith)
        requires
            0 <= y < height,
            0 <= width,
    ;
    assert(height * width == width * height) by (nonlinear_arith);
    law_packed_components(rgb, width * height, i);
    crate::pixel::law_packed_size(
        crate::pixel::PixelOutputLayout::Argb8888,
        rgb,
        width * height,
    );
    let argb = nv12_argb(data, width, height);
    let part = argb.subrange(4 * i, 4 * i + 4);
    assert(part[0] == argb[4 * i] && part[1] == argb[4 * i + 1] && part[2] == argb[4 * i + 2]
        && part[3] == argb[4 * i + 3]);
}

/// What is read back makes an image if and only if both sides are even and there are three
/// bytes for every two pixels.
pub proof fn law_readback_needs_three_bytes_for_two_pixels(
    codec: Seq<char>,
    len: nat,
    width: usize,
    height: usize,
)
    requires
        len <= usize::MAX,
    ensures
        readback_fault(codec, len, width, height) is None <==> width % 2 == 0 && height % 2 == 0 && 2
            * len >= 3 * (width * height),
{
    assert(0 <= width * height) by (nonlinear_arith)
        requires
            0 <= width,
            0 <= height,
    ;
    if width % 2 == 0 && height % 2 == 0 {
        let w = width as int;
        let h = height as int;
        assert((w * h) % 2 == 0) by {
            let half = w / 2;
            assert(w == 2 * half);
            assert(w * h == 2 * (half * h)) by (nonlinear_arith)
                requires
                    w == 2 * half,
            ;
        }
    }
}

/// A frame as it was decoded can be converted if and only if it has pixels and a byte for
/// each, and half as many again.
pub proof fn law_raw_frames_need_three_bytes_for_two_pixels(
    data: Seq<u8>,
    width: nat,
    height: nat,
)
    requires
        data.len() <= usize::MAX,
    ensures
        raw_fault(data, width, height) is None <==> width > 0 && height > 0 && 2 * data.len() + 1
            >= 3 * (width * height),
{
    assert(0 <= width * height) by (nonlinear_arith);
}

// ---------------------------------------------------------------------------
// Faults

/// The frame that a conversion fails on is the first with a fault, and it fails only where
/// there is one.
pub proof fn law_first_faulty_raw_frame(decoded: Seq<RawFrame>, from: int)
    requires
        0 <= from <= decoded.len(),
    ensures
        ({
            let found = first_bad(decoded, from);
            &&& from <= found <= decoded.len()
            &&& found < decoded.len() ==> raw_fault(
                decoded[found].frame@,
                decoded[found].width as nat,
                decoded[found].height as nat,
            ) is Some
            &&& forall|k: int|
                from <= k < found ==> raw_fault(
                    (#[trigger] decoded[k]).frame@,
                    decoded[k].width as nat,
                    decoded[k].height as nat,
                ) is None
        }),
    decreases decoded.len() - from,
{
    if from < decoded.len() && raw_fault(
        decoded[from].frame@,
        decoded[from].width as nat,
        decoded[from].height as nat,
    ) is None {
        law_first_faulty_raw_frame(decoded, from + 1);
    }
}

/// The frame that an AV1 readback fails on is the first that cannot be read.
pub proof fn law_first_unreadable_frame(
    readbacks: Seq<Av1Readback>,
    width: usize,
    height: usize,
    from: int,
    end: int,
)
    requires
        0 <= from <= end <= readbacks.len(),
    ensures
        ({
            let found = first_unreadable(readbacks, width, height, from, end);
            &&& from <= found <= end
            &&& found < end ==> readback_fault(
                "AV1"@,
                readbacks[found].data@.len(),
                width,
                height,
            ) is Some
            &&& forall|k: int|
                from <= k < found ==> readback_fault(
                    "AV1"@,
                    (#[trigger] readbacks[k]).data@.len(),
                    width,
                    height,
                ) is None
        }),
    decreases end - from,
{
    if from < end && readback_fault("AV1"@, readbacks[from].data@.len(), width, height) is None {
        law_first_unreadable_frame(readbacks, width, height, from + 1, end);
    }
}

/// The access unit that an HEVC readback fails on is the first with a fault.
pub proof fn law_first_faulty_access_unit(
    readback: HevcReadback,
    name: Seq<char>,
    from: int,
    n: int,
)
    requires
        0 <= from <= n,
    ensures
        ({
            let found = first_faulty(readback, name, from, n);
            &&& from <= found <= n
            &&& found < n ==> unit_fault(readback, name, found) is Some
            &&& forall|k: int| from <= k < found ==> #[trigger] unit_fault(readback, name, k) is None
        }),
    decreases n - from,
{
    if from < n && unit_fault(readback, name, from) is None {
        law_first_faulty_access_unit(readback, name, from + 1, n);
    }
}

/// Access unit `i` gives an image: there is a sample for it, in the one format that can be
/// read, with even sides and three bytes for every two pixels.
pub open spec fn gives_image(readback: HevcReadback, i: int) -> bool {
    let stride = readback.readback_sample_stride;
    let pixels = readback.coded_width * readback.coded_height;
    &&& stride > 0
    &&& (i + 1) * stride <= readback.readback_sample@.len()
    &&& readback.output_format == 1_000_156_003
    &&& readback.coded_width > 0 && readback.coded_width % 2 == 0
    &&& readback.coded_height > 0 && readback.coded_height % 2 == 0
    &&& 2 * stride >= 3 * pixels
}

/// An access unit has no fault if and only if it gives an image.
pub proof fn law_access_units_without_fault_give_images(
    readback: HevcReadback,
    name: Seq<char>,
    i: int,
)
    requires
        0 <= i <= usize::MAX,
        readback.readback_sample@.len() <= usize::MAX,
    ensures
        unit_fault(readback, name, i) is None <==> gives_image(readback, i),
{
    let stride = readback.readback_sample_stride;
    law_samples_follow_each_other(readback.readback_sample@, stride, i as usize, 0);
    law_readback_needs_three_bytes_for_two_pixels(
        "HEVC"@,
        stride as nat,
        readback.coded_width as usize,
        readback.coded_height as usize,
    );
}

/// A stream is accepted if and only if something was decoded and, where pixels are wanted,
/// everything was, each access unit with a sample that gives an image.
pub proof fn law_streams_are_accepted_where_all_units_give_images(
    headers: Seq<HevcAccessUnitHeader>,
    readback: HevcReadback,
    metadata_only: bool,
    name: Seq<char>,
)
    requires
        headers.len() <= usize::MAX,
        readback.readback_sample@.len() <= usize::MAX,
    ensures
        stream_fault(headers, readback, metadata_only, name) is None
            <==> readback.submitted_access_units > 0 && (!metadata_only ==> 0 < headers.len()
            <= readback.submitted_access_units && headers.len() <= readback.readback_sample_count
            && forall|i: int| 0 <= i < headers.len() ==> #[trigger] gives_image(readback, i)),
{
    let n = headers.len() as int;
    law_first_faulty_access_unit(readback, name, 0, n);
    let found = first_faulty(readback, name, 0, n);
    if found < n {
        law_access_units_without_fault_give_images(readback, name, found);
    } else {
        assert forall|i: int| 0 <= i < n implies #[trigger] gives_image(readback, i) by {
            law_access_units_without_fault_give_images(readback, name, i);
            assert(unit_fault(readback, name, i) is None);
        }
    }
}

// ---------------------------------------------------------------------------
// Slots

/// An access unit at which decoding can start anew: types 19 and 20.
pub open spec fn is_refresh(header: HevcAccessUnitHeader) -> bool {
    header.nal_unit_type == 19 || header.nal_unit_type == 20
}

/// An access unit is counted from the nearest refresh at it or before it, or from the start
/// where there is none.
pub proof fn law_units_are_counted_from_the_last_refresh(
    headers: Seq<HevcAccessUnitHeader>,
    i: int,
)
    requires
        0 <= i < headers.len(),
    ensures
        0 <= since_idr(headers, i) <= i,
        ({
            let from = i - since_idr(headers, i);
            &&& from == 0 || is_refresh(headers[from])
            &&& forall|k: int| from < k <= i ==> !is_refresh(#[trigger] headers[k])
        }),
    decreases i,
{
    if i > 0 && !is_refresh(headers[i]) {
        law_units_are_counted_from_the_last_refresh(headers, i - 1);
    }
}

/// There is always a slot to count with.
pub proof fn law_there_is_always_a_slot(readback: HevcReadback)
    ensures
        slot_count(readback) >= 1,
        readback.max_dpb_slots >= 1 ==> slot_count(readback) == readback.max_dpb_slots,
{
}

// ---------------------------------------------------------------------------
// Packets and summaries

/// The frames that packets are made of are those with data, in their order.
pub proof fn law_packets_are_made_of_frames_with_data(encoded: Seq<EncodedFrame>)
    ensures
        forall|i: int|
            0 <= i < encoded.len() ==> ((#[trigger] encoded[i]).data@.len() > 0 <==> filled(
                encoded,
            ).contains(i)),
        forall|k: int|
            0 <= k < filled(encoded).len() ==> 0 <= (#[trigger] filled(encoded)[k])
                < encoded.len(),
        forall|k: int, l: int|
            0 <= k < l < filled(encoded).len() ==> (#[trigger] filled(encoded)[k]) < (
            #[trigger] filled(encoded)[l]),
    decreases encoded.len(),
{
    if encoded.len() > 0 {
        let rest = encoded.drop_last();
        let last = encoded.len() - 1;
        law_packets_are_made_of_frames_with_data(rest);
        let before = filled(rest);
        let now = filled(encoded);
        assert(encoded.last() == encoded[last]);
        assert forall|i: int| 0 <= i < encoded.len() implies ((#[trigger] encoded[i]).data@.len() > 0
            <==> now.contains(i)) by {
            if i < last {
                assert(rest[i] == encoded[i]);
                if before.contains(i) {
                    let k = choose|k: int| 0 <= k < before.len() && before[k] == i;
                    assert(now[k] == i);
                }
                if now.contains(i) {
                    let k = choose|k: int| 0 <= k < now.len() && now[k] == i;
                    assert(before[k] == i);
                }
            } else if encoded[last].data@.len() > 0 {
                assert(now[now.len() - 1] == last);
            } else if now.contains(last) {
                let k = choose|k: int| 0 <= k < now.len() && now[k] == last;
                assert(before[k] < rest.len());
            }
        }
        assert forall|k: int| 0 <= k < now.len() implies 0 <= (#[trigger] now[k])
            < encoded.len() by {
            if k < before.len() {
                assert(now[k] == before[k]);
            }
        }
        assert forall|k: int, l: int| 0 <= k < l < now.len() implies (#[trigger] now[k]) < (
        #[trigger] now[l]) by {
            assert(now[k] == before[k]);
            if l < before.len() {
                assert(now[l] == before[l]);
            }
        }
    }
}

/// A summary counts all frames, and tells size and format of the last one; two batches one
/// after the other are summed up as one.
pub proof fn law_summaries_add_up(summary: DecodeSummary, first: Seq<Frame>, second: Seq<Frame>)
    requires
        summary.decoded_frames + first.len() + second.len() <= usize::MAX,
    ensures
        summary_after(summary, first).decoded_frames == summary.decoded_frames + first.len(),
        first.len() > 0 ==> summary_after(summary, first).width == Some(
            first[first.len() - 1].width,
        ) && summary_after(summary, first).height == Some(first[first.len() - 1].height)
            && summary_after(summary, first).pixel_format == first[first.len() - 1].pixel_format,
        summary_after(summary_after(summary, first), second) == summary_after(
            summary,
            first + second,
        ),
        summary_after(summary, Seq::empty()) == summary,
{
    if second.len() > 0 {
        assert((first + second).last() == second.last());
    } else {
        assert(first + second =~= first);
    }
}

// ---------------------------------------------------------------------------
// Display order

/// Frames are shown in the order of their picture order counts, and those with the same
/// count as they were decoded; each is shown once, with nothing changed but its time, and
/// the times follow each other step by step.
pub proof fn law_frames_are_shown_by_count(
    items: Seq<(i32, Frame)>,
    start: i64,
    step: i64,
) -> (from: Seq<int>)
    ensures
        is_ranking(items, ordered(items), from),
        displayed(items, start, step).len() == items.len(),
        forall|d: int|
            0 <= d < items.len() ==> displayed(items, start, step)[d] == (Frame {
                pts_90k: Some(frame_time(start, d, step)),
                ..items[#[trigger] from[d]].1
            }),
        forall|d: int, e: int|
            0 <= d < e < items.len() ==> 0 <= from[d] < items.len() && items[#[trigger] from[d]].0
                <= items[#[trigger] from[e]].0 && from[d] != from[e],
        forall|d: int, e: int|
            0 <= d < e < items.len() && items[#[trigger] from[d]].0 == items[
                #[trigger] from[e]
            ].0 ==> from[d] < from[e],
{
    law_ordered_is_a_ranking(items)
}

/// Byte `k` of sample `index` is that many bytes behind the samples before it, which are all
/// as long, and a sample is found if and only if it lies in the data.
pub proof fn law_samples_follow_each_other(samples: Seq<u8>, stride: usize, index: usize, k: int)
    requires
        samples.len() <= usize::MAX,
    ensures
        sample_fault(samples.len(), stride, index) is None <==> stride > 0 && (index + 1) * stride
            <= samples.len(),
        sample_fault(samples.len(), stride, index) is None && 0 <= k < stride ==> sample_at(
            samples,
            stride,
            index,
        ).len() == stride && sample_at(samples, stride, index)[k] == samples[index * stride + k],
{
    assert((index + 1) * stride == index * stride + stride) by (nonlinear_arith);
    assert(0 <= index * stride) by (nonlinear_arith)
        requires
            0 <= index,
            0 <= stride,
    ;
}

// ---------------------------------------------------------------------------
// Frames

/// A decoded frame has the size of what it was made of, and the time of its place in the
/// stream; its pixels are there unless only metadata are wanted, each with its own samples.
pub proof fn law_decoded_frames_show_their_data(
    frame: Frame,
    raw: RawFrame,
    metadata: bool,
    start: i64,
    fps: i32,
    i: int,
    x: int,
    y: int,
)
    requires
        is_backend_frame(frame, raw, metadata, start, fps, i),
        0 <= x < raw.width,
        0 <= y < raw.height,
    ensures
        frame.width == raw.width as usize && frame.height == raw.height as usize,
        frame.pts_90k == Some(frame_time(start, i, pts_step(fps))),
        frame.argb is None <==> metadata,
        frame.nv12 is None,
        !frame.force_keyframe,
        frame.argb matches Some(argb) ==> ({
            let at = 4 * (y * raw.width + x);
            let pair = raw.width * raw.height + (y / 2) * raw.width + (x - x % 2);
            argb@[at] == 255 && (argb@[at + 1], argb@[at + 2], argb@[at + 3]) == yuv_color(
                raw.frame@[y * raw.width + x],
                raw.frame@[pair],
                raw.frame@[pair + 1],
                ColorConvertOptions { matrix: ColorMatrix::Bt601, range: ColorRange::Limited },
            )
        }),
{
    law_opaque_pixels_have_their_own_samples(
        raw.frame@,
        raw.width as nat,
        raw.height as nat,
        x,
        y,
    );
}

/// The flags of a frame tell its slot, which is counted from the last refresh and again from
/// the first slot behind the last one, whether it was read back, and whether it was blank.
pub proof fn law_frames_tell_their_slot(
    frame: Frame,
    headers: Seq<HevcAccessUnitHeader>,
    readback: HevcReadback,
    metadata_only: bool,
    i: int,
    from: int,
)
    requires
        is_unit_frame(frame, headers, readback, metadata_only, i),
        0 <= from <= i < headers.len(),
        from == 0 || is_refresh(headers[from]),
        forall|k: int| from < k <= i ==> !is_refresh(#[trigger] headers[k]),
        1 <= readback.max_dpb_slots <= 0x4000_0000,
    ensures
        frame.decode_info_flags matches Some(flags) && (flags >> 1u32) & 0x3fff_ffffu32 == (i - from)
            % (readback.max_dpb_slots as int) && (flags & 0x8000_0000u32 == 0x8000_0000u32 <==> i
            < readback.submitted_access_units) && (flags & 1u32 == 1u32 <==> i
            < readback.submitted_access_units && readback.readback_non_zero),
        frame.force_keyframe <==> is_refresh(headers[i]),
        frame.argb is None <==> metadata_only,
{
    law_units_are_counted_from_the_last_refresh(headers, i);
    let counted = i - since_idr(headers, i);
    assert(counted == from) by {
        if counted < from {
            assert(!is_refresh(headers[from]));
        } else if from < counted {
            assert(!is_refresh(headers[counted]));
        }
    }
    let slots = readback.max_dpb_slots as int;
    let slot = since_idr(headers, i) % slots;
    assert(0 <= slot < slots) by (nonlinear_arith)
        requires
            slots >= 1,
            slot == since_idr(headers, i) % slots,
    ;
    law_decode_info_flags_can_be_read(
        slot,
        i < readback.submitted_access_units,
        readback.readback_non_zero,
    );
}

/// A packet has the data and the kind of its frame, and its time where that is a time.
pub proof fn law_packets_keep_their_frames(
    packet: EncodedPacket,
    codec: Codec,
    encoded: EncodedFrame,
)
    requires
        is_packet_of(packet, codec, encoded),
    ensures
        packet.data@ == encoded.data@,
        packet.codec == codec,
        packet.is_keyframe == encoded.is_keyframe,
        packet.pts_90k matches Some(pts) ==> (encoded.pts matches Some(given) && pts == given && pts
            >= 0),
        packet.pts_90k is None ==> (encoded.pts matches Some(given) ==> given
            > 0x7fff_ffff_ffff_ffff),
{
}

} // verus!
