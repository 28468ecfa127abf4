//! From AV1 bitstream units to what each frame's decode operation is handed.

use super::obu::{obu_views, obus, parse_av1_low_overhead_obus, Av1ObuRecord, Av1ObuType, Obu};
use super::sequence::{
    parse_av1_sequence_header_payload, sequence_header, ParsedAv1SequenceHeader,
};
use crate::text::{decimal, decimal_text};
use vstd::prelude::*;
use vstd::slice::*;
use vstd::string::*;

verus! {

// ---------------------------------------------------------------------------
// Sequence headers for a decoder

/// A sequence header as a decoder takes it. Flags that are not listed are clear and
/// numbers that are not listed are zero.
#[derive(Debug, Clone, Copy, PartialEq, Eq, Structural)]
pub struct Av1StdSequenceHeader {
    pub still_picture: bool,
    pub reduced_still_picture_header: bool,
    pub use_128x128_superblock: bool,
    pub enable_filter_intra: bool,
    pub enable_intra_edge_filter: bool,
    pub seq_profile: u32,
    pub frame_width_bits_minus_1: u8,
    pub frame_height_bits_minus_1: u8,
    pub max_frame_width_minus_1: u16,
    pub max_frame_height_minus_1: u16,
    pub seq_force_integer_mv: u8,
    pub seq_force_screen_content_tools: u8,
}

/// The value that leaves the choice of integer motion vectors to each frame.
pub const AV1_SELECT_INTEGER_MV: u8 = 2;

/// The value that leaves the choice of screen content tools to each frame.
pub const AV1_SELECT_SCREEN_CONTENT_TOOLS: u8 = 2;

/// The header that a decoder takes, or why there is none.
pub open spec fn std_sequence_header(parsed: ParsedAv1SequenceHeader) -> Result<
    Av1StdSequenceHeader,
    Seq<char>,
> {
    if parsed.seq_profile > 2 {
        Err("unsupported AV1 seq_profile "@ + decimal(parsed.seq_profile as nat))
    } else if parsed.max_frame_width_minus_1 > 0xffff {
        Err("max_frame_width_minus_1 exceeds Vulkan std u16 range"@)
    } else if parsed.max_frame_height_minus_1 > 0xffff {
        Err("max_frame_height_minus_1 exceeds Vulkan std u16 range"@)
    } else {
        Ok(
            Av1StdSequenceHeader {
                still_picture: parsed.still_picture,
                reduced_still_picture_header: parsed.reduced_still_picture_header,
                use_128x128_superblock: parsed.use_128x128_superblock,
                enable_filter_intra: parsed.enable_filter_intra,
                enable_intra_edge_filter: parsed.enable_intra_edge_filter,
                seq_profile: parsed.seq_profile as u32,
                frame_width_bits_minus_1: parsed.frame_width_bits_minus_1,
                frame_height_bits_minus_1: parsed.frame_height_bits_minus_1,
                max_frame_width_minus_1: parsed.max_frame_width_minus_1 as u16,
                max_frame_height_minus_1: parsed.max_frame_height_minus_1 as u16,
                seq_force_integer_mv: 2,
                seq_force_screen_content_tools: 2,
            },
        )
    }
}

pub fn build_av1_std_sequence_header(parsed: &ParsedAv1SequenceHeader) -> (r: Result<
    Av1StdSequenceHeader,
    String,
>)
    ensures
        match std_sequence_header(*parsed) {
            Ok(header) => r == Ok::<Av1StdSequenceHeader, String>(header),
            Err(e) => r matches Err(m) && m@ == e,
        },
{
    if parsed.seq_profile > 2 {
        return Err(
            String::from_str("unsupported AV1 seq_profile ").concat(
                decimal_text(parsed.seq_profile as u64).as_str(),
            ),
        );
    }
    if parsed.max_frame_width_minus_1 > 0xffff {
        return Err(String::from_str("max_frame_width_minus_1 exceeds Vulkan std u16 range"));
    }
    if parsed.max_frame_height_minus_1 > 0xffff {
        return Err(String::from_str("max_frame_height_minus_1 exceeds Vulkan std u16 range"));
    }
    Ok(
        Av1StdSequenceHeader {
            still_picture: parsed.still_picture,
            reduced_still_picture_header: parsed.reduced_still_picture_header,
            use_128x128_superblock: parsed.use_128x128_superblock,
            enable_filter_intra: parsed.enable_filter_intra,
            enable_intra_edge_filter: parsed.enable_intra_edge_filter,
            seq_profile: parsed.seq_profile as u32,
            frame_width_bits_minus_1: parsed.frame_width_bits_minus_1,
            frame_height_bits_minus_1: parsed.frame_height_bits_minus_1,
            max_frame_width_minus_1: parsed.max_frame_width_minus_1 as u16,
            max_frame_height_minus_1: parsed.max_frame_height_minus_1 as u16,
            seq_force_integer_mv: AV1_SELECT_INTEGER_MV,
            seq_force_screen_content_tools: AV1_SELECT_SCREEN_CONTENT_TOOLS,
        },
    )
}

/// The position of the first unit of a type, or the number of units.
pub open spec fn first_of_type(list: Seq<Obu>, obu_type: Av1ObuType, from: int) -> int
    decreases list.len() - from,
{
    if from >= list.len() {
        list.len() as int
    } else if list[from].obu_type == obu_type {
        from
    } else {
        first_of_type(list, obu_type, from + 1)
    }
}

/// Units that carry parts of a frame.
pub open spec fn carries_frame(obu_type: Av1ObuType) -> bool {
    obu_type == Av1ObuType::Frame || obu_type == Av1ObuType::FrameHeader || obu_type
        == Av1ObuType::TileGroup
}

/// The position of the first unit that carries a part of a frame, or the number of
/// units.
pub open spec fn first_frame(list: Seq<Obu>, from: int) -> int
    decreases list.len() - from,
{
    if from >= list.len() {
        list.len() as int
    } else if carries_frame(list[from].obu_type) {
        from
    } else {
        first_frame(list, from + 1)
    }
}

pub fn find_type(records: &Vec<Av1ObuRecord>, obu_type: Av1ObuType) -> (r: usize)
    ensures
        r == first_of_type(obu_views(records@), obu_type, 0),
        r <= records@.len(),
        r < records@.len() ==> records@[r as int].obu_type == obu_type,
{
    let mut i: usize = 0;
    while i < records.len()
        invariant
            i <= records.len(),
            first_of_type(obu_views(records@), obu_type, 0) == first_of_type(
                obu_views(records@),
                obu_type,
                i as int,
            ),
        decreases records.len() - i,
    {
        if records[i].obu_type == obu_type {
            return i;
        }
        i = i + 1;
    }
    i
}

fn is_frame_part(obu_type: Av1ObuType) -> (r: bool)
    ensures
        r == carries_frame(obu_type),
{
    match obu_type {
        Av1ObuType::Frame | Av1ObuType::FrameHeader | Av1ObuType::TileGroup => true,
        _ => false,
    }
}

pub fn find_frame(records: &Vec<Av1ObuRecord>) -> (r: usize)
    ensures
        r == first_frame(obu_views(records@), 0),
        r <= records@.len(),
{
    let mut i: usize = 0;
    while i < records.len()
        invariant
            i <= records.len(),
            first_frame(obu_views(records@), 0) == first_frame(obu_views(records@), i as int),
        decreases records.len() - i,
    {
        if is_frame_part(records[i].obu_type) {
            return i;
        }
        i = i + 1;
    }
    i
}

/// The payload of a unit.
pub open spec fn payload_of(b: Seq<u8>, obu: Obu) -> Seq<u8> {
    b.subrange(obu.payload_start, obu.end)
}

/// The sequence header of a unit list as a decoder takes it.
pub open spec fn header_in(b: Seq<u8>, list: Seq<Obu>) -> Result<Av1StdSequenceHeader, Seq<char>> {
    let at = first_of_type(list, Av1ObuType::SequenceHeader, 0);
    if at >= list.len() {
        Err("missing AV1 sequence header OBU"@)
    } else {
        match sequence_header(payload_of(b, list[at])) {
            Err(e) => Err(e),
            Ok(parsed) => std_sequence_header(parsed),
        }
    }
}

/// The sequence header of a bitstream as a decoder takes it, or why there is none.
pub open spec fn bitstream_header(b: Seq<u8>) -> Result<Av1StdSequenceHeader, Seq<char>> {
    match obus(b) {
        Err(e) => Err(e),
        Ok(list) => header_in(b, list),
    }
}

pub fn extract_av1_std_sequence_header(bitstream: &[u8]) -> (r: Result<
    Av1StdSequenceHeader,
    String,
>)
    ensures
        match bitstream_header(bitstream@) {
            Ok(header) => r == Ok::<Av1StdSequenceHeader, String>(header),
            Err(e) => r matches Err(m) && m@ == e,
        },
{
    let records = parse_av1_low_overhead_obus(bitstream)?;
    let at: usize = find_type(&records, Av1ObuType::SequenceHeader);
    if at >= records.len() {
        return Err(String::from_str("missing AV1 sequence header OBU"));
    }
    proof {
        super::obu::law_obus_in_order(bitstream@);
        assert(obu_views(records@)[at as int] == records@[at as int]@);
    }
    let payload = slice_subrange(
        bitstream,
        records[at].payload_range.start,
        records[at].payload_range.end,
    );
    let parsed = parse_av1_sequence_header_payload(payload)?;
    build_av1_std_sequence_header(&parsed)
}

// ---------------------------------------------------------------------------
// Inspection

#[derive(Debug, Clone, Copy, PartialEq, Eq, Structural)]
pub struct Av1BitstreamInspection {
    pub obu_count: usize,
    pub temporal_unit_count: usize,
    pub has_sequence_header: bool,
    pub has_frame_payload: bool,
    pub sequence_header_obu_len: Option<usize>,
    pub coded_width: Option<u32>,
    pub coded_height: Option<u32>,
}

/// The greatest index of a temporal unit.
pub open spec fn last_unit(list: Seq<Obu>) -> int
    decreases list.len(),
{
    if list.len() == 0 {
        0
    } else {
        let before = last_unit(list.drop_last());
        if list.last().temporal_unit > before { list.last().temporal_unit } else { before }
    }
}

/// What a bitstream holds, or why it cannot be read.
pub open spec fn inspection(b: Seq<u8>) -> Result<Av1BitstreamInspection, Seq<char>> {
    match obus(b) {
        Err(e) => Err(e),
        Ok(list) => {
            let at = first_of_type(list, Av1ObuType::SequenceHeader, 0);
            let found = at < list.len();
            let parsed = sequence_header(payload_of(b, list[at]));
            if found && parsed is Err {
                Err(parsed->Err_0)
            } else if found && std_sequence_header(parsed->Ok_0) is Err {
                Err(std_sequence_header(parsed->Ok_0)->Err_0)
            } else {
                Ok(
                    Av1BitstreamInspection {
                        obu_count: list.len() as usize,
                        temporal_unit_count: (last_unit(list) + 1) as usize,
                        has_sequence_header: found,
                        has_frame_payload: first_frame(list, 0) < list.len(),
                        sequence_header_obu_len: if found {
                            Some((list[at].end - list[at].start) as usize)
                        } else {
                            None
                        },
                        coded_width: if found {
                            Some((parsed->Ok_0.max_frame_width_minus_1 + 1) as u32)
                        } else {
                            None
                        },
                        coded_height: if found {
                            Some((parsed->Ok_0.max_frame_height_minus_1 + 1) as u32)
                        } else {
                            None
                        },
                    },
                )
            }
        },
    }
}

fn greatest_unit(records: &Vec<Av1ObuRecord>) -> (r: usize)
    ensures
        r == last_unit(obu_views(records@)),
{
    let mut best: usize = 0;
    let mut i: usize = 0;
    assert(obu_views(records@).take(0) =~= Seq::empty());
    while i < records.len()
        invariant
            i <= records.len(),
            best == last_unit(obu_views(records@).take(i as int)),
        decreases records.len() - i,
    {
        if records[i].temporal_unit_index > best {
            best = records[i].temporal_unit_index;
        }
        i = i + 1;
        assert(obu_views(records@).take(i as int).drop_last() =~= obu_views(records@).take(i - 1));
    }
    assert(obu_views(records@).take(records@.len() as int) =~= obu_views(records@));
    best
}

/// A temporal unit begins at a delimiter, so there are at most as many as units.
proof fn lemma_units_counted(b: Seq<u8>, at: int, unit: int, has_payload: bool)
    requires
        0 <= at <= b.len(),
        0 <= unit <= at,
        has_payload ==> unit < at,
        super::obu::obus_from(b, at, unit, has_payload) is Ok,
    ensures
        forall|i: int|
            0 <= i < super::obu::obus_from(b, at, unit, has_payload)->Ok_0.len() ==> (
            #[trigger] super::obu::obus_from(b, at, unit, has_payload)->Ok_0[i]).temporal_unit
                < b.len(),
    decreases b.len() - at,
{
    if at < b.len() {
        let (from, end) = super::obu::obu_payload(b, at)->Ok_0;
        let obu_type = super::obu::obu_type_of((b[at] >> 3) & 0x0f);
        let delimiter = obu_type == Av1ObuType::TemporalDelimiter;
        let now = if delimiter && has_payload && unit < usize::MAX { unit + 1 } else { unit };
        lemma_units_counted(b, end, now, !delimiter);
        let rest = super::obu::obus_from(b, end, now, !delimiter)->Ok_0;
        let list = super::obu::obus_from(b, at, unit, has_payload)->Ok_0;
        assert forall|i: int| 0 <= i < list.len() implies (#[trigger] list[i]).temporal_unit
            < b.len() by {
            if i > 0 {
                assert(list[i] == rest[i - 1]);
            }
        }
    }
}

proof fn lemma_last_unit_bound(list: Seq<Obu>, bound: int)
    requires
        0 < bound,
        forall|i: int| 0 <= i < list.len() ==> (#[trigger] list[i]).temporal_unit < bound,
    ensures
        0 <= last_unit(list) < bound,
    decreases list.len(),
{
    if list.len() > 0 {
        assert forall|i: int| 0 <= i < list.drop_last().len() implies (
        #[trigger] list.drop_last()[i]).temporal_unit < bound by {
            assert(list[i].temporal_unit < bound);
        }
        lemma_last_unit_bound(list.drop_last(), bound);
        assert(list[list.len() - 1].temporal_unit < bound);
    }
}

pub fn inspect_av1_low_overhead_obus(bitstream: &[u8]) -> (r: Result<
    Av1BitstreamInspection,
    String,
>)
    ensures
        match inspection(bitstream@) {
            Ok(found) => r == Ok::<Av1BitstreamInspection, String>(found),
            Err(e) => r matches Err(m) && m@ == e,
        },
{
    let records = parse_av1_low_overhead_obus(bitstream)?;
    let at: usize = find_type(&records, Av1ObuType::SequenceHeader);
    let frame_at: usize = find_frame(&records);
    let last: usize = greatest_unit(&records);
    let limit: usize = bitstream.len();
    proof {
        super::obu::law_obus_in_order(bitstream@);
        lemma_units_counted(bitstream@, 0, 0, false);
        lemma_last_unit_bound(obu_views(records@), bitstream@.len() as int);
    }
    if at < records.len() {
        assert(obu_views(records@)[at as int] == records@[at as int]@);
        let payload = slice_subrange(
            bitstream,
            records[at].payload_range.start,
            records[at].payload_range.end,
        );
        let parsed = parse_av1_sequence_header_payload(payload)?;
        let _header = build_av1_std_sequence_header(&parsed)?;
        Ok(
            Av1BitstreamInspection {
                obu_count: records.len(),
                temporal_unit_count: last + 1,
                has_sequence_header: true,
                has_frame_payload: frame_at < records.len(),
                sequence_header_obu_len: Some(
                    records[at].obu_range.end - records[at].obu_range.start,
                ),
                coded_width: Some(parsed.coded_width()),
                coded_height: Some(parsed.coded_height()),
            },
        )
    } else {
        Ok(
            Av1BitstreamInspection {
                obu_count: records.len(),
                temporal_unit_count: last + 1,
                has_sequence_header: false,
                has_frame_payload: frame_at < records.len(),
                sequence_header_obu_len: None,
                coded_width: None,
                coded_height: None,
            },
        )
    }
}

// ---------------------------------------------------------------------------
// Frames and their tiles

#[derive(Debug, Clone, PartialEq, Eq)]
pub struct Av1DecodeSubmitSkeleton {
    pub temporal_unit_index: usize,
    pub frame_header_offset: u32,
    pub tile_offsets: Vec<u32>,
    pub tile_sizes: Vec<u32>,
}

/// A frame: its temporal unit, where its header starts, and where its tiles start
/// and how long they are.
pub struct Submit {
    pub temporal_unit: int,
    pub header: int,
    pub offsets: Seq<u32>,
    pub sizes: Seq<u32>,
}

impl View for Av1DecodeSubmitSkeleton {
    type V = Submit;

    open spec fn view(&self) -> Submit {
        Submit {
            temporal_unit: self.temporal_unit_index as int,
            header: self.frame_header_offset as int,
            offsets: self.tile_offsets@,
            sizes: self.tile_sizes@,
        }
    }
}

pub open spec fn submit_views(submits: Seq<Av1DecodeSubmitSkeleton>) -> Seq<Submit> {
    Seq::new(submits.len(), |i: int| submits[i]@)
}

/// A frame unit holds header and tiles in one payload.
pub open spec fn frame_submit(obu: Obu) -> Result<Submit, Seq<char>> {
    let size = obu.end - obu.payload_start;
    if obu.payload_start > u32::MAX {
        Err("AV1 frame header offset exceeds u32 range"@)
    } else if size > u32::MAX {
        Err("AV1 frame OBU payload size exceeds u32 range"@)
    } else if size == 0 {
        Err("AV1 frame OBU payload is empty"@)
    } else {
        Ok(
            Submit {
                temporal_unit: obu.temporal_unit,
                header: obu.payload_start,
                offsets: seq![obu.payload_start as u32],
                sizes: seq![size as u32],
            },
        )
    }
}

/// The positions of the tile group units that belong to a frame header unit of the
/// given temporal unit: those from `j` on, up to the next frame header and within
/// the temporal unit.
pub open spec fn tile_groups(list: Seq<Obu>, unit: int, j: int) -> Seq<int>
    decreases list.len() - j,
{
    if j >= list.len() || j < 0 || list[j].temporal_unit != unit || list[j].obu_type
        == Av1ObuType::FrameHeader {
        Seq::empty()
    } else {
        let rest = tile_groups(list, unit, j + 1);
        if list[j].obu_type == Av1ObuType::TileGroup { seq![j] + rest } else { rest }
    }
}

/// The tiles of the first `n` tile groups.
pub open spec fn tiles_of(list: Seq<Obu>, groups: Seq<int>, n: nat) -> Result<
    (Seq<u32>, Seq<u32>),
    Seq<char>,
>
    decreases n,
{
    if n == 0 {
        Ok((Seq::empty(), Seq::empty()))
    } else {
        let obu = list[groups[n - 1]];
        let size = obu.end - obu.payload_start;
        match tiles_of(list, groups, (n - 1) as nat) {
            Err(e) => Err(e),
            Ok((offsets, sizes)) => if obu.payload_start > u32::MAX {
                Err("AV1 tile offset exceeds u32 range"@)
            } else if size > u32::MAX {
                Err("AV1 tile group payload size exceeds u32 range"@)
            } else if size == 0 {
                Err("AV1 tile-group OBU payload is empty"@)
            } else {
                Ok((offsets.push(obu.payload_start as u32), sizes.push(size as u32)))
            },
        }
    }
}

proof fn lemma_tiles_fault(list: Seq<Obu>, groups: Seq<int>, n: nat, total: nat)
    requires
        n <= total,
        tiles_of(list, groups, n) is Err,
    ensures
        tiles_of(list, groups, total) == tiles_of(list, groups, n),
    decreases total,
{
    if n < total {
        lemma_tiles_fault(list, groups, n, (total - 1) as nat);
    }
}

/// A frame header unit and its tile groups.
pub open spec fn tile_group_submit(list: Seq<Obu>, at: int) -> Result<Submit, Seq<char>> {
    let groups = tile_groups(list, list[at].temporal_unit, at + 1);
    if list[at].payload_start > u32::MAX {
        Err("AV1 frame header offset exceeds u32 range"@)
    } else {
        match tiles_of(list, groups, groups.len()) {
            Err(e) => Err(e),
            Ok((offsets, sizes)) => Ok(
                Submit {
                    temporal_unit: list[at].temporal_unit,
                    header: list[at].payload_start,
                    offsets,
                    sizes,
                },
            ),
        }
    }
}

/// Whether a tile group belongs to a frame header among the first `n` units.
pub open spec fn claimed(list: Seq<Obu>, j: int, n: int) -> bool {
    exists|h: int|
        0 <= h < n && h < list.len() && (#[trigger] list[h]).obu_type == Av1ObuType::FrameHeader
            && tile_groups(list, list[h].temporal_unit, h + 1).contains(j)
}

/// What a unit adds to the list of frames.
pub open spec fn frame_at(list: Seq<Obu>, i: int) -> Option<Result<Submit, Seq<char>>> {
    match list[i].obu_type {
        Av1ObuType::Frame => Some(frame_submit(list[i])),
        Av1ObuType::FrameHeader => if tile_groups(list, list[i].temporal_unit, i + 1).len() > 0 {
            Some(tile_group_submit(list, i))
        } else {
            None
        },
        Av1ObuType::TileGroup => if claimed(list, i, i) {
            None
        } else {
            Some(Err("AV1 tile-group OBU is missing a preceding frame-header OBU"@))
        },
        _ => None,
    }
}

/// The frames of the first `n` units.
pub open spec fn frames_upto(list: Seq<Obu>, n: nat) -> Result<Seq<Submit>, Seq<char>>
    decreases n,
{
    if n == 0 {
        Ok(Seq::empty())
    } else {
        match frames_upto(list, (n - 1) as nat) {
            Err(e) => Err(e),
            Ok(before) => match frame_at(list, n - 1) {
                None => Ok(before),
                Some(Ok(submit)) => Ok(before.push(submit)),
                Some(Err(e)) => Err(e),
            },
        }
    }
}

proof fn lemma_frames_fault(list: Seq<Obu>, n: nat, total: nat)
    requires
        n <= total,
        frames_upto(list, n) is Err,
    ensures
        frames_upto(list, total) == frames_upto(list, n),
    decreases total,
{
    if n < total {
        lemma_frames_fault(list, n, (total - 1) as nat);
    }
}

/// The frames of a bitstream, or why there are none.
pub open spec fn bitstream_frames(b: Seq<u8>) -> Result<Seq<Submit>, Seq<char>> {
    match obus(b) {
        Err(e) => Err(e),
        Ok(list) => match frames_upto(list, list.len()) {
            Err(e) => Err(e),
            Ok(frames) => if frames.len() == 0 {
                Err("missing AV1 frame or tile-group OBU for decode submit"@)
            } else {
                Ok(frames)
            },
        },
    }
}

pub open spec fn submit_outcome(
    r: Result<Av1DecodeSubmitSkeleton, String>,
    expected: Result<Submit, Seq<char>>,
) -> bool {
    match expected {
        Ok(submit) => r matches Ok(s) && s@ == submit,
        Err(e) => r matches Err(m) && m@ == e,
    }
}

pub fn build_av1_frame_obu_submit_skeleton(frame_record: &Av1ObuRecord) -> (r: Result<
    Av1DecodeSubmitSkeleton,
    String,
>)
    requires
        frame_record.consistent(),
    ensures
        submit_outcome(r, frame_submit(frame_record@)),
{
    let start: usize = frame_record.payload_range.start;
    let size: usize = frame_record.payload_range.end - start;
    if start as u64 > 0xffff_ffff {
        return Err(String::from_str("AV1 frame header offset exceeds u32 range"));
    }
    if size as u64 > 0xffff_ffff {
        return Err(String::from_str("AV1 frame OBU payload size exceeds u32 range"));
    }
    if size == 0 {
        return Err(String::from_str("AV1 frame OBU payload is empty"));
    }
    let mut tile_offsets: Vec<u32> = Vec::new();
    tile_offsets.push(start as u32);
    let mut tile_sizes: Vec<u32> = Vec::new();
    tile_sizes.push(size as u32);
    assert(tile_offsets@ =~= seq![start as u32]);
    assert(tile_sizes@ =~= seq![size as u32]);
    Ok(
        Av1DecodeSubmitSkeleton {
            temporal_unit_index: frame_record.temporal_unit_index,
            frame_header_offset: start as u32,
            tile_offsets,
            tile_sizes,
        },
    )
}

/// Collects the tiles of the tile groups at the given positions.
fn collect_tiles(records: &Vec<Av1ObuRecord>, groups: &Vec<usize>) -> (r: Result<
    (Vec<u32>, Vec<u32>),
    String,
>)
    requires
        forall|i: int| 0 <= i < records@.len() ==> (#[trigger] records@[i]).consistent(),
        forall|k: int| 0 <= k < groups@.len() ==> (#[trigger] groups@[k]) < records@.len(),
    ensures
        match tiles_of(
            obu_views(records@),
            Seq::new(groups@.len(), |k: int| groups@[k] as int),
            groups@.len(),
        ) {
            Ok((offsets, sizes)) => r matches Ok(found) && found.0@ == offsets && found.1@ == sizes,
            Err(e) => r matches Err(m) && m@ == e,
        },
{
    let ghost list = obu_views(records@);
    let ghost at = Seq::new(groups@.len(), |k: int| groups@[k] as int);
    let mut tile_offsets: Vec<u32> = Vec::new();
    let mut tile_sizes: Vec<u32> = Vec::new();
    let mut k: usize = 0;
    while k < groups.len()
        invariant
            k <= groups.len(),
            list == obu_views(records@),
            at == Seq::new(groups@.len(), |k: int| groups@[k] as int),
            forall|i: int| 0 <= i < records@.len() ==> (#[trigger] records@[i]).consistent(),
            forall|k: int| 0 <= k < groups@.len() ==> (#[trigger] groups@[k]) < records@.len(),
            tiles_of(list, at, k as nat) == Ok::<(Seq<u32>, Seq<u32>), Seq<char>>(
                (tile_offsets@, tile_sizes@),
            ),
        decreases groups.len() - k,
    {
        let record = &records[groups[k]];
        let start: usize = record.payload_range.start;
        let size: usize = record.payload_range.end - start;
        proof {
            assert(list[at[k as int]] == record@);
            if tiles_of(list, at, (k + 1) as nat) is Err {
                lemma_tiles_fault(list, at, (k + 1) as nat, groups@.len());
            }
        }
        if start as u64 > 0xffff_ffff {
            return Err(String::from_str("AV1 tile offset exceeds u32 range"));
        }
        if size as u64 > 0xffff_ffff {
            return Err(String::from_str("AV1 tile group payload size exceeds u32 range"));
        }
        if size == 0 {
            return Err(String::from_str("AV1 tile-group OBU payload is empty"));
        }
        tile_offsets.push(start as u32);
        tile_sizes.push(size as u32);
        k = k + 1;
    }
    Ok((tile_offsets, tile_sizes))
}

/// The tile group units of the frame header unit at a position.
fn find_tile_groups(records: &Vec<Av1ObuRecord>, at: usize) -> (groups: Vec<usize>)
    requires
        at < records@.len(),
    ensures
        Seq::new(groups@.len(), |k: int| groups@[k] as int) == tile_groups(
            obu_views(records@),
            records@[at as int].temporal_unit_index as int,
            at + 1,
        ),
        forall|k: int| 0 <= k < groups@.len() ==> (#[trigger] groups@[k]) < records@.len(),
{
    let unit: usize = records[at].temporal_unit_index;
    let ghost list = obu_views(records@);
    let ghost whole = tile_groups(list, unit as int, at + 1);
    let mut groups: Vec<usize> = Vec::new();
    let count: usize = records.len();
    let mut j: usize = at + 1;
    let mut open: bool = true;
    assert(Seq::new(groups@.len(), |k: int| groups@[k] as int) + whole =~= whole);
    while open && j < records.len()
        invariant
            j <= records.len(),
            list == obu_views(records@),
            open ==> whole == Seq::new(groups@.len(), |k: int| groups@[k] as int) + tile_groups(
                list,
                unit as int,
                j as int,
            ),
            !open ==> whole == Seq::new(groups@.len(), |k: int| groups@[k] as int),
            forall|k: int| 0 <= k < groups@.len() ==> (#[trigger] groups@[k]) < records@.len(),
        decreases records.len() - j, (if open { 1int } else { 0int }),
    {
        let ghost before = Seq::new(groups@.len(), |k: int| groups@[k] as int);
        let header: bool = match records[j].obu_type {
            Av1ObuType::FrameHeader => true,
            _ => false,
        };
        assert(list[j as int] == records@[j as int]@);
        if records[j].temporal_unit_index != unit || header {
            open = false;
            assert(before + Seq::<int>::empty() =~= before);
        } else {
            let group: bool = match records[j].obu_type {
                Av1ObuType::TileGroup => true,
                _ => false,
            };
            if group {
                groups.push(j);
                assert(Seq::new(groups@.len(), |k: int| groups@[k] as int) =~= before.push(j as int));
            }
            j = j + 1;
            assert(whole =~= Seq::new(groups@.len(), |k: int| groups@[k] as int) + tile_groups(
                list,
                unit as int,
                j as int,
            ));
        }
    }
    if open {
        assert(whole =~= Seq::new(groups@.len(), |k: int| groups@[k] as int));
    }
    groups
}

pub fn build_av1_tile_group_submit_skeleton(records: &Vec<Av1ObuRecord>, at: usize) -> (r: Result<
    Av1DecodeSubmitSkeleton,
    String,
>)
    requires
        at < records@.len(),
        forall|i: int| 0 <= i < records@.len() ==> (#[trigger] records@[i]).consistent(),
    ensures
        submit_outcome(r, tile_group_submit(obu_views(records@), at as int)),
{
    let groups = find_tile_groups(records, at);
    let record = &records[at];
    assert(obu_views(records@)[at as int] == record@);
    if record.payload_range.start as u64 > 0xffff_ffff {
        return Err(String::from_str("AV1 frame header offset exceeds u32 range"));
    }
    let (tile_offsets, tile_sizes) = collect_tiles(records, &groups)?;
    Ok(
        Av1DecodeSubmitSkeleton {
            temporal_unit_index: record.temporal_unit_index,
            frame_header_offset: record.payload_range.start as u32,
            tile_offsets,
            tile_sizes,
        },
    )
}

fn mark_all(flags: &mut Vec<bool>, groups: &Vec<usize>)
    requires
        forall|k: int| 0 <= k < groups@.len() ==> (#[trigger] groups@[k]) < old(flags)@.len(),
    ensures
        final(flags)@.len() == old(flags)@.len(),
        forall|j: int|
            0 <= j < old(flags)@.len() ==> (#[trigger] final(flags)@[j] <==> old(flags)@[j]
                || Seq::new(groups@.len(), |k: int| groups@[k] as int).contains(j)),
{
    let mut k: usize = 0;
    let ghost at = Seq::new(groups@.len(), |k: int| groups@[k] as int);
    while k < groups.len()
        invariant
            k <= groups.len(),
            at == Seq::new(groups@.len(), |k: int| groups@[k] as int),
            flags@.len() == old(flags)@.len(),
            forall|i: int| 0 <= i < groups@.len() ==> (#[trigger] groups@[i]) < old(flags)@.len(),
            forall|j: int|
                0 <= j < old(flags)@.len() ==> (#[trigger] flags@[j] <==> old(flags)@[j] || at.take(
                    k as int,
                ).contains(j)),
        decreases groups.len() - k,
    {
        let ghost before = flags@;
        flags.set(groups[k], true);
        k = k + 1;
        assert forall|j: int| 0 <= j < old(flags)@.len() implies (#[trigger] flags@[j] <==> old(
            flags,
        )@[j] || at.take(k as int).contains(j)) by {
            assert(at.take(k as int) =~= at.take(k - 1).push(at[k - 1]));
            assert(before[j] <==> old(flags)@[j] || at.take(k - 1).contains(j));
            if at.take(k - 1).contains(j) {
                let w = at.take(k - 1).index_of(j);
                assert(at.take(k as int)[w] == j);
            }
            if j == at[k - 1] {
                assert(at.take(k as int)[k - 1] == j);
            }
        }
    }
    assert(at.take(at.len() as int) =~= at);
}

proof fn lemma_claimed_step(list: Seq<Obu>, j: int, i: int)
    requires
        0 <= i < list.len(),
    ensures
        claimed(list, j, i + 1) <==> claimed(list, j, i) || (list[i].obu_type
            == Av1ObuType::FrameHeader && tile_groups(
            list,
            list[i].temporal_unit,
            i + 1,
        ).contains(j)),
{
    if claimed(list, j, i + 1) {
        let h = choose|h: int|
            0 <= h < i + 1 && h < list.len() && (#[trigger] list[h]).obu_type
                == Av1ObuType::FrameHeader && tile_groups(
                list,
                list[h].temporal_unit,
                h + 1,
            ).contains(j);
        if h < i {
            assert(claimed(list, j, i));
        }
    }
    if claimed(list, j, i) {
        let h = choose|h: int|
            0 <= h < i && h < list.len() && (#[trigger] list[h]).obu_type
                == Av1ObuType::FrameHeader && tile_groups(
                list,
                list[h].temporal_unit,
                h + 1,
            ).contains(j);
        assert(list[h].obu_type == Av1ObuType::FrameHeader);
    }
}

/// The frames of a bitstream in order.
pub fn build_av1_decode_submit_skeletons(bitstream: &[u8]) -> (r: Result<
    Vec<Av1DecodeSubmitSkeleton>,
    String,
>)
    ensures
        match bitstream_frames(bitstream@) {
            Ok(frames) => r matches Ok(submits) && submit_views(submits@) == frames,
            Err(e) => r matches Err(m) && m@ == e,
        },
{
    let records = parse_av1_low_overhead_obus(bitstream)?;
    let ghost list = obu_views(records@);
    let mut submits: Vec<Av1DecodeSubmitSkeleton> = Vec::new();
    let mut taken: Vec<bool> = Vec::new();
    let mut n: usize = 0;
    while n < records.len()
        invariant
            n <= records.len(),
            taken@.len() == n,
            forall|j: int| 0 <= j < n ==> !taken@[j],
        decreases records.len() - n,
    {
        taken.push(false);
        n = n + 1;
    }
    let mut i: usize = 0;
    assert(submit_views(submits@) =~= Seq::empty());
    while i < records.len()
        invariant
            i <= records.len(),
            list == obu_views(records@),
            obus(bitstream@) == Ok::<Seq<Obu>, Seq<char>>(list),
            taken@.len() == records@.len(),
            forall|k: int| 0 <= k < records@.len() ==> (#[trigger] records@[k]).consistent(),
            forall|j: int|
                0 <= j < records@.len() ==> (#[trigger] taken@[j] <==> claimed(list, j, i as int)),
            frames_upto(list, i as nat) == Ok::<Seq<Submit>, Seq<char>>(submit_views(submits@)),
        decreases records.len() - i,
    {
        let ghost before = submit_views(submits@);
        let ghost taken_before = taken@;
        assert(list[i as int] == records@[i as int]@);
        proof {
            if frames_upto(list, (i + 1) as nat) is Err {
                lemma_frames_fault(list, (i + 1) as nat, list.len());
            }
        }
        match records[i].obu_type {
            Av1ObuType::Frame => {
                let submit = build_av1_frame_obu_submit_skeleton(&records[i])?;
                submits.push(submit);
                assert(submit_views(submits@) =~= before.push(submit@));
            },
            Av1ObuType::FrameHeader => {
                let groups = find_tile_groups(&records, i);
                if groups.len() > 0 {
                    mark_all(&mut taken, &groups);
                    let submit = build_av1_tile_group_submit_skeleton(&records, i)?;
                    submits.push(submit);
                    assert(submit_views(submits@) =~= before.push(submit@));
                }
            },
            Av1ObuType::TileGroup => {
                if !taken[i] {
                    return Err(
                        String::from_str(
                            "AV1 tile-group OBU is missing a preceding frame-header OBU",
                        ),
                    );
                }
            },
            _ => {},
        }
        assert forall|j: int| 0 <= j < records@.len() implies (#[trigger] taken@[j] <==> claimed(
            list,
            j,
            i + 1,
        )) by {
            lemma_claimed_step(list, j, i as int);
            assert(taken_before[j] <==> claimed(list, j, i as int));
        }
        i = i + 1;
    }
    if submits.len() == 0 {
        return Err(String::from_str("missing AV1 frame or tile-group OBU for decode submit"));
    }
    Ok(submits)
}

/// The first frame of a bitstream.
pub fn build_av1_decode_submit_skeleton(bitstream: &[u8]) -> (r: Result<
    Av1DecodeSubmitSkeleton,
    String,
>)
    ensures
        match bitstream_frames(bitstream@) {
            Ok(frames) => r matches Ok(submit) && submit@ == frames[0],
            Err(e) => r matches Err(m) && m@ == e,
        },
{
    let mut submits = build_av1_decode_submit_skeletons(bitstream)?;
    assert(submit_views(submits@)[0] == submits@[0]@);
    let first = submits.swap_remove(0);
    Ok(first)
}

// ---------------------------------------------------------------------------
// The size of tiles

/// The sum of numbers.
pub open spec fn total(sizes: Seq<u32>) -> nat
    decreases sizes.len(),
{
    if sizes.len() == 0 { 0 } else { total(sizes.drop_last()) + sizes.last() as nat }
}

pub proof fn lemma_tile_groups(list: Seq<Obu>, unit: int, j: int)
    requires
        0 <= j,
    ensures
        forall|k: int|
            0 <= k < tile_groups(list, unit, j).len() ==> j <= (#[trigger] tile_groups(
                list,
                unit,
                j,
            )[k]) < list.len(),
        forall|k: int, l: int|
            0 <= k < l < tile_groups(list, unit, j).len() ==> (#[trigger] tile_groups(
                list,
                unit,
                j,
            )[k]) < (#[trigger] tile_groups(list, unit, j)[l]),
    decreases list.len() - j,
{
    let groups = tile_groups(list, unit, j);
    if j < list.len() && list[j].temporal_unit == unit && list[j].obu_type
        != Av1ObuType::FrameHeader {
        lemma_tile_groups(list, unit, j + 1);
        let rest = tile_groups(list, unit, j + 1);
        if list[j].obu_type == Av1ObuType::TileGroup {
            assert(groups =~= seq![j] + rest);
            assert forall|k: int| 0 <= k < groups.len() implies j <= (#[trigger] groups[k])
                < list.len() by {
                if k > 0 {
                    assert(groups[k] == rest[k - 1]);
                }
            }
            assert forall|k: int, l: int| 0 <= k < l < groups.len() implies (#[trigger] groups[k])
                < (#[trigger] groups[l]) by {
                assert(groups[l] == rest[l - 1]);
                if k > 0 {
                    assert(groups[k] == rest[k - 1]);
                }
            }
        }
    }
}

proof fn lemma_tiles_total(list: Seq<Obu>, groups: Seq<int>, n: nat, len: int)
    requires
        n <= groups.len(),
        super::obu::obus_in_order(list, 0, len),
        forall|k: int| 0 <= k < groups.len() ==> 0 <= (#[trigger] groups[k]) < list.len(),
        forall|k: int, l: int|
            0 <= k < l < groups.len() ==> (#[trigger] groups[k]) < (#[trigger] groups[l]),
        tiles_of(list, groups, n) is Ok,
    ensures
        total((tiles_of(list, groups, n)->Ok_0).1) <= (if n == 0 {
            0
        } else {
            list[groups[n - 1]].end
        }),
    decreases n,
{
    if n > 0 {
        lemma_tiles_total(list, groups, (n - 1) as nat, len);
        let obu = list[groups[n - 1]];
        let before = (tiles_of(list, groups, (n - 1) as nat)->Ok_0).1;
        let size = (obu.end - obu.payload_start) as u32;
        assert(before.push(size).drop_last() =~= before);
        assert(0 <= obu.start < obu.payload_start <= obu.end);
        if n > 1 {
            assert(groups[n - 2] < groups[n - 1]);
            assert(list[groups[n - 2]].end <= obu.start);
        }
    }
}

proof fn lemma_frames_total(list: Seq<Obu>, n: nat, len: int)
    requires
        n <= list.len(),
        super::obu::obus_in_order(list, 0, len),
        frames_upto(list, n) is Ok,
    ensures
        forall|k: int|
            0 <= k < frames_upto(list, n)->Ok_0.len() ==> total(
                (#[trigger] frames_upto(list, n)->Ok_0[k]).sizes,
            ) <= len,
    decreases n,
{
    if n > 0 {
        lemma_frames_total(list, (n - 1) as nat, len);
        let obu = list[n - 1];
        assert(0 <= obu.start < obu.payload_start <= obu.end <= len);
        if frame_at(list, n - 1) is Some {
            let submit = frame_at(list, n - 1)->0->Ok_0;
            if obu.obu_type == Av1ObuType::Frame {
                assert(submit.sizes.drop_last() =~= Seq::empty());
                assert(total(submit.sizes) == submit.sizes[0]) by {
                    assert(total(submit.sizes.drop_last()) == 0);
                }
            } else {
                let groups = tile_groups(list, obu.temporal_unit, n as int);
                lemma_tile_groups(list, obu.temporal_unit, n as int);
                lemma_tiles_total(list, groups, groups.len(), len);
                assert(list[groups[groups.len() - 1]].end <= len);
            }
        }
    }
}

/// The tiles of a frame do not overlap: together they are no longer than the
/// bitstream.
pub proof fn law_tiles_fit_the_bitstream(b: Seq<u8>)
    requires
        bitstream_frames(b) is Ok,
    ensures
        forall|k: int|
            0 <= k < bitstream_frames(b)->Ok_0.len() ==> total(
                (#[trigger] bitstream_frames(b)->Ok_0[k]).sizes,
            ) <= b.len(),
{
    super::obu::law_obus_in_order(b);
    let list = obus(b)->Ok_0;
    lemma_frames_total(list, list.len(), b.len() as int);
}

proof fn lemma_total_prefix(sizes: Seq<u32>, n: int)
    requires
        0 <= n <= sizes.len(),
    ensures
        total(sizes.take(n)) <= total(sizes),
    decreases sizes.len(),
{
    if n < sizes.len() {
        lemma_total_prefix(sizes.drop_last(), n);
        assert(sizes.drop_last().take(n) =~= sizes.take(n));
    } else {
        assert(sizes.take(n) =~= sizes);
    }
}

/// The sum of tile sizes, if it can be held.
pub fn checked_tile_bytes(sizes: &Vec<u32>) -> (r: Option<u32>)
    ensures
        r == (if total(sizes@) <= u32::MAX { Some(total(sizes@) as u32) } else { None }),
{
    let mut sum: u32 = 0;
    let mut i: usize = 0;
    assert(sizes@.take(0) =~= Seq::empty());
    while i < sizes.len()
        invariant
            i <= sizes.len(),
            sum == total(sizes@.take(i as int)),
        decreases sizes.len() - i,
    {
        proof {
            lemma_total_prefix(sizes@, i + 1);
            assert(sizes@.take(i + 1).drop_last() =~= sizes@.take(i as int));
        }
        match sum.checked_add(sizes[i]) {
            Some(next) => {
                sum = next;
            },
            None => {
                return None;
            },
        }
        i = i + 1;
    }
    assert(sizes@.take(sizes@.len() as int) =~= sizes@);
    Some(sum)
}

/// The sum of tile sizes.
pub fn total_tile_bytes(sizes: &Vec<u32>) -> (r: u32)
    requires
        total(sizes@) <= u32::MAX,
    ensures
        r == total(sizes@),
{
    match checked_tile_bytes(sizes) {
        Some(sum) => sum,
        None => 0,
    }
}

} // verus!
