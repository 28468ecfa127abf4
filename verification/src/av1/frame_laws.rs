//! Which units of a stream are the tiles of which frame.

use super::obu::{law_obus_in_order, obus, obus_in_order, Av1ObuType, Obu};
use super::skeleton::{
    bitstream_frames, claimed, frame_at, frame_submit, frames_upto, lemma_tile_groups, tile_group_submit,
    tile_groups, tiles_of, Submit,
};
use vstd::prelude::*;

verus! {

/// The unit at `j` holds tiles of the frame whose header stands in the unit at `h`: either
/// the unit is a whole frame, or it is a tile group of the same temporal unit and its
/// nearest frame header before is the one at `h`.
pub open spec fn belongs(list: Seq<Obu>, h: int, j: int) -> bool {
    0 <= h < list.len() && 0 <= j < list.len() && if list[h].obu_type == Av1ObuType::Frame {
        j == h
    } else {
        &&& list[h].obu_type == Av1ObuType::FrameHeader
        &&& list[j].obu_type == Av1ObuType::TileGroup
        &&& h < j
        &&& forall|m: int|
            h < m <= j ==> (#[trigger] list[m]).temporal_unit == list[h].temporal_unit
        &&& forall|m: int|
            h < m < j ==> (#[trigger] list[m]).obu_type != Av1ObuType::FrameHeader
    }
}

/// A tile is the payload of the unit at `j`, which belongs to the frame at `h` and is not
/// empty.
pub open spec fn is_tile(list: Seq<Obu>, h: int, j: int, offset: u32, size: u32) -> bool {
    belongs(list, h, j) && offset == list[j].payload_start && size == list[j].end
        - list[j].payload_start && size > 0
}

/// A tile is the payload of some unit that belongs to the frame at `h`.
pub open spec fn is_own_tile(list: Seq<Obu>, h: int, offset: u32, size: u32) -> bool {
    exists|j: int| is_tile(list, h, j, offset, size)
}

/// The payload of the unit at `j` is among the tiles of a frame.
pub open spec fn has_tile(list: Seq<Obu>, h: int, j: int, frame: Submit) -> bool {
    exists|t: int|
        0 <= t < frame.offsets.len() && is_tile(
            list,
            h,
            j,
            #[trigger] frame.offsets[t],
            frame.sizes[t],
        )
}

/// A frame is that of the header at `h`, and its tiles are the payloads of all units that
/// belong to it, in their order.
#[verifier::opaque]
pub open spec fn is_frame(list: Seq<Obu>, h: int, frame: Submit) -> bool {
    &&& 0 <= h < list.len()
    &&& frame.header == list[h].payload_start
    &&& frame.temporal_unit == list[h].temporal_unit
    &&& frame.offsets.len() == frame.sizes.len()
    &&& frame.offsets.len() > 0
    &&& forall|t: int|
        0 <= t < frame.offsets.len() ==> is_own_tile(
            list,
            h,
            #[trigger] frame.offsets[t],
            frame.sizes[t],
        )
    &&& forall|j: int| #[trigger] belongs(list, h, j) ==> has_tile(list, h, j, frame)
    &&& forall|t: int, u: int|
        0 <= t < u < frame.offsets.len() ==> (#[trigger] frame.offsets[t]) + frame.sizes[t]
            <= #[trigger] frame.offsets[u]
}

proof fn lemma_groups_from(list: Seq<Obu>, unit: int, from: int, j: int)
    requires
        0 <= from,
    ensures
        tile_groups(list, unit, from).contains(j) <==> from <= j < list.len() && list[j].obu_type
            == Av1ObuType::TileGroup && forall|m: int|
            from <= m <= j ==> (#[trigger] list[m]).temporal_unit == unit && list[m].obu_type
                != Av1ObuType::FrameHeader,
    decreases list.len() - from,
{
    let groups = tile_groups(list, unit, from);
    lemma_tile_groups(list, unit, from);
    if from < list.len() && list[from].temporal_unit == unit && list[from].obu_type
        != Av1ObuType::FrameHeader {
        lemma_groups_from(list, unit, from + 1, j);
        let rest = tile_groups(list, unit, from + 1);
        if list[from].obu_type == Av1ObuType::TileGroup {
            assert(groups =~= seq![from] + rest);
            if rest.contains(j) {
                let k = choose|k: int| 0 <= k < rest.len() && rest[k] == j;
                assert(groups[k + 1] == j);
            }
            if groups.contains(j) && j != from {
                let k = choose|k: int| 0 <= k < groups.len() && groups[k] == j;
                assert(rest[k - 1] == j);
            }
            if j == from {
                assert(groups[0] == j);
            }
        }
    } else if from < list.len() && from <= j {
        assert(!(list[from].temporal_unit == unit && list[from].obu_type
            != Av1ObuType::FrameHeader));
    }
}

/// The tile groups found behind a frame header are exactly those whose nearest frame header
/// is this one and that stand in its temporal unit.
pub proof fn law_tile_groups_belong_to_the_nearest_header(list: Seq<Obu>, h: int, j: int)
    requires
        0 <= h < list.len(),
        list[h].obu_type == Av1ObuType::FrameHeader,
    ensures
        tile_groups(list, list[h].temporal_unit, h + 1).contains(j) <==> belongs(list, h, j),
{
    lemma_groups_from(list, list[h].temporal_unit, h + 1, j);
}

proof fn lemma_tiles(list: Seq<Obu>, groups: Seq<int>, n: nat, len: int)
    requires
        n <= groups.len(),
        obus_in_order(list, 0, len),
        forall|k: int| 0 <= k < groups.len() ==> 0 <= (#[trigger] groups[k]) < list.len(),
        tiles_of(list, groups, n) is Ok,
    ensures
        ({
            let (offsets, sizes) = tiles_of(list, groups, n)->Ok_0;
            &&& offsets.len() == n
            &&& sizes.len() == n
            &&& forall|t: int|
                0 <= t < n ==> (#[trigger] offsets[t]) == list[groups[t]].payload_start && sizes[t]
                    == list[groups[t]].end - list[groups[t]].payload_start && sizes[t] > 0
        }),
    decreases n,
{
    if n > 0 {
        lemma_tiles(list, groups, (n - 1) as nat, len);
        let obu = list[groups[n - 1]];
        let (before, before_sizes) = tiles_of(list, groups, (n - 1) as nat)->Ok_0;
        let (offsets, sizes) = tiles_of(list, groups, n)->Ok_0;
        assert(offsets =~= before.push(obu.payload_start as u32));
        assert(sizes =~= before_sizes.push((obu.end - obu.payload_start) as u32));
    }
}

proof fn lemma_frame_at(list: Seq<Obu>, h: int, len: int)
    requires
        0 <= h < list.len(),
        obus_in_order(list, 0, len),
        frame_at(list, h) matches Some(r) && r is Ok,
    ensures
        is_frame(list, h, frame_at(list, h)->0->Ok_0),
{
    reveal(is_frame);
    let frame = frame_at(list, h)->0->Ok_0;
    if list[h].obu_type == Av1ObuType::Frame {
        assert(frame_at(list, h)->0 == frame_submit(list[h]));
        assert(frame.offsets.len() == 1 && frame.sizes.len() == 1);
        assert(list[h].payload_start <= list[h].end);
        assert(is_tile(list, h, h, frame.offsets[0], frame.sizes[0]));
        assert forall|t: int| 0 <= t < frame.offsets.len() implies is_own_tile(
            list,
            h,
            #[trigger] frame.offsets[t],
            frame.sizes[t],
        ) by {
            assert(is_tile(list, h, h, frame.offsets[t], frame.sizes[t]));
        }
        assert(has_tile(list, h, h, frame));
    } else {
        assert(list[h].obu_type == Av1ObuType::FrameHeader);
        assert(frame_at(list, h)->0 == tile_group_submit(list, h));
        let groups = tile_groups(list, list[h].temporal_unit, h + 1);
        lemma_tile_groups(list, list[h].temporal_unit, h + 1);
        lemma_tiles(list, groups, groups.len(), len);
        assert(frame.offsets.len() == groups.len());
        assert forall|t: int| 0 <= t < frame.offsets.len() implies is_own_tile(
            list,
            h,
            #[trigger] frame.offsets[t],
            frame.sizes[t],
        ) by {
            assert(groups.contains(groups[t]));
            law_tile_groups_belong_to_the_nearest_header(list, h, groups[t]);
            assert(is_tile(list, h, groups[t], frame.offsets[t], frame.sizes[t]));
        }
        assert forall|j: int| #[trigger] belongs(list, h, j) implies has_tile(list, h, j, frame) by {
            law_tile_groups_belong_to_the_nearest_header(list, h, j);
            let t = choose|t: int| 0 <= t < groups.len() && groups[t] == j;
            assert(is_tile(list, h, j, frame.offsets[t], frame.sizes[t]));
        }
        assert forall|t: int, u: int| 0 <= t < u < frame.offsets.len() implies (
        #[trigger] frame.offsets[t]) + frame.sizes[t] <= #[trigger] frame.offsets[u] by {
            assert(groups[t] < groups[u]);
            assert(list[groups[t]].end <= list[groups[u]].start);
        }
    }
}

/// A frame is that of some header before `n`.
pub open spec fn has_header(list: Seq<Obu>, n: int, frame: Submit) -> bool {
    exists|h: int| h < n && is_frame(list, h, frame)
}

/// The header at `h` has a frame.
pub open spec fn has_frame(list: Seq<Obu>, h: int, frames: Seq<Submit>) -> bool {
    exists|k: int| 0 <= k < frames.len() && is_frame(list, h, #[trigger] frames[k])
}

/// Each frame is that of some header before `n`, the headers in their order, and no header
/// with tiles is left out.
pub open spec fn frames_of_headers(list: Seq<Obu>, frames: Seq<Submit>, n: int) -> bool {
    &&& forall|k: int|
        0 <= k < frames.len() ==> has_header(list, n, #[trigger] frames[k])
    &&& forall|k: int, l: int|
        0 <= k < l < frames.len() ==> (#[trigger] frames[k]).header < (
        #[trigger] frames[l]).header
    &&& forall|h: int, j: int| #[trigger]
        belongs(list, h, j) && h < n ==> has_frame(list, h, frames)
}

proof fn lemma_frame_header(list: Seq<Obu>, h: int, frame: Submit)
    requires
        is_frame(list, h, frame),
    ensures
        0 <= h < list.len(),
        frame.header == list[h].payload_start,
{
    reveal(is_frame);
}

proof fn lemma_frame_tile(list: Seq<Obu>, h: int, frame: Submit, t: int) -> (j: int)
    requires
        is_frame(list, h, frame),
        0 <= t < frame.offsets.len(),
    ensures
        is_tile(list, h, j, frame.offsets[t], frame.sizes[t]),
{
    reveal(is_frame);
    assert(is_own_tile(list, h, frame.offsets[t], frame.sizes[t]));
    choose|j: int| is_tile(list, h, j, frame.offsets[t], frame.sizes[t])
}

proof fn lemma_tile_found(list: Seq<Obu>, h: int, frame: Submit, j: int) -> (t: int)
    requires
        is_frame(list, h, frame),
        belongs(list, h, j),
    ensures
        0 <= t < frame.offsets.len(),
        is_tile(list, h, j, frame.offsets[t], frame.sizes[t]),
{
    reveal(is_frame);
    assert(has_tile(list, h, j, frame));
    choose|t: int|
        0 <= t < frame.offsets.len() && is_tile(
            list,
            h,
            j,
            #[trigger] frame.offsets[t],
            frame.sizes[t],
        )
}

proof fn lemma_header_with_tiles(list: Seq<Obu>, h: int, j: int)
    requires
        belongs(list, h, j),
    ensures
        frame_at(list, h) is Some,
{
    if list[h].obu_type == Av1ObuType::FrameHeader {
        law_tile_groups_belong_to_the_nearest_header(list, h, j);
    }
}

proof fn lemma_frames(list: Seq<Obu>, n: nat, len: int)
    requires
        n <= list.len(),
        obus_in_order(list, 0, len),
        frames_upto(list, n) is Ok,
    ensures
        frames_of_headers(list, frames_upto(list, n)->Ok_0, n as int),
        forall|j: int|
            0 <= j < n && (#[trigger] list[j]).obu_type == Av1ObuType::TileGroup ==> claimed(
                list,
                j,
                j,
            ),
    decreases n,
{
    let frames = frames_upto(list, n)->Ok_0;
    if n > 0 {
        let before = frames_upto(list, (n - 1) as nat)->Ok_0;
        lemma_frames(list, (n - 1) as nat, len);
        let at = n - 1;
        let found = frame_at(list, at);
        match found {
            Some(r) => {
                lemma_frame_at(list, at, len);
                assert(frames == before.push(r->Ok_0));
                assert(frames[before.len() as int] == r->Ok_0);
            },
            None => {
                assert(frames == before);
            },
        }
        assert forall|k: int| 0 <= k < frames.len() implies has_header(
            list,
            n as int,
            #[trigger] frames[k],
        ) by {
            if k < before.len() {
                assert(frames[k] == before[k]);
                assert(has_header(list, n - 1, before[k]));
                let h = choose|h: int| h < n - 1 && is_frame(list, h, before[k]);
                assert(is_frame(list, h, frames[k]));
            } else {
                assert(is_frame(list, at, frames[k]));
            }
        }
        assert forall|k: int, l: int| 0 <= k < l < frames.len() implies (
        #[trigger] frames[k]).header < (#[trigger] frames[l]).header by {
            assert(frames[k] == before[k]);
            if l < before.len() {
                assert(frames[l] == before[l]);
            } else {
                assert(has_header(list, n - 1, before[k]));
                let h = choose|h: int| h < n - 1 && is_frame(list, h, before[k]);
                lemma_frame_header(list, h, before[k]);
                lemma_frame_header(list, at, frames[l]);
                assert(list[h].end <= list[at].start);
            }
        }
        assert forall|h: int, j: int| #[trigger] belongs(list, h, j) && h < n implies has_frame(
            list,
            h,
            frames,
        ) by {
            if h < at {
                assert(has_frame(list, h, before));
                let k = choose|k: int|
                    0 <= k < before.len() && is_frame(list, h, #[trigger] before[k]);
                assert(frames[k] == before[k]);
            } else {
                lemma_header_with_tiles(list, h, j);
                assert(is_frame(list, h, frames[before.len() as int]));
            }
        }
    }
}

/// The frames of a stream: every frame is that of one header, with the payloads of exactly
/// the units whose nearest header it is as its tiles; the frames come in the order of
/// their headers.
pub proof fn law_frames_hold_their_own_tiles(b: Seq<u8>, k: int)
    requires
        bitstream_frames(b) is Ok,
        0 <= k < bitstream_frames(b)->Ok_0.len(),
    ensures
        exists|h: int| is_frame(obus(b)->Ok_0, h, bitstream_frames(b)->Ok_0[k]),
        forall|l: int|
            k < l < bitstream_frames(b)->Ok_0.len() ==> bitstream_frames(b)->Ok_0[k].header < (
            #[trigger] bitstream_frames(b)->Ok_0[l]).header,
{
    let list = obus(b)->Ok_0;
    let frames = bitstream_frames(b)->Ok_0;
    law_obus_in_order(b);
    lemma_frames(list, list.len(), b.len() as int);
    assert(has_header(list, list.len() as int, frames[k]));
}

proof fn lemma_one_owner(list: Seq<Obu>, g: int, h: int, j: int)
    requires
        belongs(list, g, j),
        belongs(list, h, j),
    ensures
        g == h,
{
    if list[j].obu_type == Av1ObuType::TileGroup {
        if g < h {
            assert(list[h].obu_type != Av1ObuType::FrameHeader);
        } else if h < g {
            assert(list[g].obu_type != Av1ObuType::FrameHeader);
        }
    }
}

/// No byte of a stream is a tile of two frames: the tiles of different frames stand in
/// different places.
pub proof fn law_frames_share_no_tile(b: Seq<u8>, k: int, l: int, t: int, u: int)
    requires
        bitstream_frames(b) is Ok,
        0 <= k < l < bitstream_frames(b)->Ok_0.len(),
        0 <= t < bitstream_frames(b)->Ok_0[k].offsets.len(),
        0 <= u < bitstream_frames(b)->Ok_0[l].offsets.len(),
    ensures
        ({
            let first = bitstream_frames(b)->Ok_0[k];
            let second = bitstream_frames(b)->Ok_0[l];
            ||| first.offsets[t] + first.sizes[t] <= second.offsets[u]
            ||| second.offsets[u] + second.sizes[u] <= first.offsets[t]
        }),
        bitstream_frames(b)->Ok_0[k].offsets[t] != bitstream_frames(b)->Ok_0[l].offsets[u],
{
    let list = obus(b)->Ok_0;
    let first = bitstream_frames(b)->Ok_0[k];
    let second = bitstream_frames(b)->Ok_0[l];
    law_obus_in_order(b);
    law_frames_hold_their_own_tiles(b, k);
    law_frames_hold_their_own_tiles(b, l);
    let g = choose|h: int| is_frame(list, h, first);
    let h = choose|h: int| is_frame(list, h, second);
    let i = lemma_frame_tile(list, g, first, t);
    let j = lemma_frame_tile(list, h, second, u);
    lemma_frame_header(list, g, first);
    lemma_frame_header(list, h, second);
    assert(first.header < second.header);
    if i == j {
        lemma_one_owner(list, g, h, i);
    } else if i < j {
        assert(list[i].end <= list[j].start);
    } else {
        assert(list[j].end <= list[i].start);
    }
}

/// Every whole frame and every tile group of a stream is a tile of some frame, namely of
/// the one whose header is the nearest before it.
pub proof fn law_every_tile_group_is_in_a_frame(b: Seq<u8>, j: int)
    requires
        bitstream_frames(b) is Ok,
        0 <= j < obus(b)->Ok_0.len(),
        obus(b)->Ok_0[j].obu_type == Av1ObuType::Frame || obus(b)->Ok_0[j].obu_type
            == Av1ObuType::TileGroup,
    ensures
        exists|h: int, k: int, t: int|
            0 <= k < bitstream_frames(b)->Ok_0.len() && 0 <= t
                < bitstream_frames(b)->Ok_0[k].offsets.len() && is_frame(
                obus(b)->Ok_0,
                h,
                bitstream_frames(b)->Ok_0[k],
            ) && #[trigger] is_tile(
                obus(b)->Ok_0,
                h,
                j,
                bitstream_frames(b)->Ok_0[k].offsets[t],
                bitstream_frames(b)->Ok_0[k].sizes[t],
            ),
{
    let list = obus(b)->Ok_0;
    let frames = bitstream_frames(b)->Ok_0;
    law_obus_in_order(b);
    lemma_frames(list, list.len(), b.len() as int);
    let h = if list[j].obu_type == Av1ObuType::Frame {
        j
    } else {
        assert(claimed(list, j, j));
        choose|h: int|
            0 <= h < j && h < list.len() && (#[trigger] list[h]).obu_type == Av1ObuType::FrameHeader
                && tile_groups(list, list[h].temporal_unit, h + 1).contains(j)
    };
    if list[j].obu_type == Av1ObuType::TileGroup {
        law_tile_groups_belong_to_the_nearest_header(list, h, j);
    }
    assert(belongs(list, h, j));
    assert(has_frame(list, h, frames));
    let k = choose|k: int| 0 <= k < frames.len() && is_frame(list, h, #[trigger] frames[k]);
    let t = lemma_tile_found(list, h, frames[k], j);
    assert(is_tile(list, h, j, frames[k].offsets[t], frames[k].sizes[t]));
}

pub open spec fn holds_tiles(obu: Obu) -> bool {
    obu.obu_type == Av1ObuType::Frame || obu.obu_type == Av1ObuType::TileGroup
}

pub open spec fn has_owner(list: Seq<Obu>, j: int) -> bool {
    exists|h: int| belongs(list, h, j)
}

/// Every unit with tiles has a header and a payload that four bytes can give the place and
/// the length of.
pub open spec fn all_tiles_placed(list: Seq<Obu>) -> bool {
    forall|j: int|
        0 <= j < list.len() && holds_tiles(#[trigger] list[j]) ==> has_owner(list, j)
            && list[j].payload_start <= u32::MAX && 0 < list[j].end - list[j].payload_start
            <= u32::MAX
}

proof fn lemma_tiles_ok(list: Seq<Obu>, groups: Seq<int>, n: nat)
    requires
        n <= groups.len(),
        forall|k: int|
            0 <= k < groups.len() ==> list[#[trigger] groups[k]].payload_start <= u32::MAX && 0
                < list[groups[k]].end - list[groups[k]].payload_start <= u32::MAX,
    ensures
        tiles_of(list, groups, n) is Ok,
    decreases n,
{
    if n > 0 {
        lemma_tiles_ok(list, groups, (n - 1) as nat);
        let obu = list[groups[n - 1]];
        assert(obu.payload_start <= u32::MAX);
    }
}

proof fn lemma_frames_ok(list: Seq<Obu>, n: nat, len: int)
    requires
        n <= list.len(),
        obus_in_order(list, 0, len),
        all_tiles_placed(list),
    ensures
        frames_upto(list, n) is Ok,
    decreases n,
{
    if n > 0 {
        lemma_frames_ok(list, (n - 1) as nat, len);
        let at = n - 1;
        let obu = list[at];
        if obu.obu_type == Av1ObuType::TileGroup {
            assert(holds_tiles(list[at]));
            let h = choose|h: int| belongs(list, h, at);
            law_tile_groups_belong_to_the_nearest_header(list, h, at);
            assert(list[h].obu_type == Av1ObuType::FrameHeader);
            assert(claimed(list, at, at));
        } else if obu.obu_type == Av1ObuType::FrameHeader {
            let groups = tile_groups(list, obu.temporal_unit, at + 1);
            lemma_tile_groups(list, obu.temporal_unit, at + 1);
            assert forall|k: int| 0 <= k < groups.len() implies list[
                #[trigger] groups[k]
            ].payload_start <= u32::MAX && 0 < list[groups[k]].end - list[groups[k]].payload_start
                <= u32::MAX by {
                assert(groups.contains(groups[k]));
                law_tile_groups_belong_to_the_nearest_header(list, at, groups[k]);
                assert(holds_tiles(list[groups[k]]));
            }
            lemma_tiles_ok(list, groups, groups.len());
            if groups.len() > 0 {
                assert(list[at].end <= list[groups[0]].start);
            }
        } else if obu.obu_type == Av1ObuType::Frame {
            assert(holds_tiles(list[at]));
        }
    }
}

/// The frames of a stream are found if and only if its units can be told apart, some unit
/// holds tiles, and every such unit has a frame header, is not empty and can be
/// addressed with four bytes.
pub proof fn law_frames_are_found_where_all_tiles_are_placed(b: Seq<u8>)
    ensures
        bitstream_frames(b) is Ok <==> obus(b) is Ok && all_tiles_placed(obus(b)->Ok_0) && exists|
            j: int,
        |
            0 <= j < obus(b)->Ok_0.len() && holds_tiles(#[trigger] obus(b)->Ok_0[j]),
{
    if obus(b) is Ok {
        let list = obus(b)->Ok_0;
        let len = b.len() as int;
        law_obus_in_order(b);
        if bitstream_frames(b) is Ok {
            let frames = bitstream_frames(b)->Ok_0;
            assert forall|j: int|
                0 <= j < list.len() && holds_tiles(#[trigger] list[j]) implies has_owner(list, j)
                && list[j].payload_start <= u32::MAX && 0 < list[j].end - list[j].payload_start
                <= u32::MAX by {
                law_every_tile_group_is_in_a_frame(b, j);
            }
            law_frames_hold_their_own_tiles(b, 0);
            let h = choose|h: int| is_frame(list, h, frames[0]);
            assert(frames[0].offsets.len() > 0) by {
                reveal(is_frame);
            }
            let j = lemma_frame_tile(list, h, frames[0], 0);
            assert(holds_tiles(list[j]));
        } else if all_tiles_placed(list) {
            lemma_frames_ok(list, list.len(), len);
            lemma_frames(list, list.len(), len);
            let frames = frames_upto(list, list.len())->Ok_0;
            assert forall|j: int| 0 <= j < list.len() implies !holds_tiles(
                #[trigger] list[j],
            ) by {
                if holds_tiles(list[j]) {
                    let h = choose|h: int| belongs(list, h, j);
                    assert(belongs(list, h, j));
                    assert(has_frame(list, h, frames));
                }
            }
        }
    }
}

} // verus!
