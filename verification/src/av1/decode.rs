//! What a decoder is handed for each AV1 frame: the part of the bitstream that it
//! reads, and where in it the header and the tiles stand.

use super::obu::{law_obus_in_order, obu_views, obus, parse_av1_low_overhead_obus, Av1ObuType, Obu};
use super::skeleton::{
    bitstream_frames, bitstream_header, build_av1_decode_submit_skeletons,
    extract_av1_std_sequence_header, find_frame, find_type, first_frame, first_of_type,
    submit_views, Av1DecodeSubmitSkeleton, Submit,
};
use crate::text::{decimal, decimal_text, size_text};
use vstd::prelude::*;
use vstd::string::*;

verus! {

/// The frame type of a key frame.
pub const AV1_FRAME_TYPE_KEY: u32 = 0;

/// The interpolation filter that each block chooses.
pub const AV1_INTERPOLATION_FILTER_SWITCHABLE: u32 = 4;

/// The transform mode that each block chooses.
pub const AV1_TX_MODE_SELECT: u32 = 2;

/// A picture as a decoder takes it. Flags that are not listed are clear and numbers
/// that are not listed are zero.
#[derive(Debug, Clone, Copy, PartialEq, Eq, Structural)]
pub struct Av1StdPictureInfo {
    pub error_resilient_mode: bool,
    pub frame_type: u32,
    pub order_hint: u8,
    pub primary_ref_frame: u8,
    pub refresh_frame_flags: u8,
    pub interpolation_filter: u32,
    pub tx_mode: u32,
}

/// A reference picture as a decoder takes it. Flags are clear and numbers that are
/// not listed are zero.
#[derive(Debug, Clone, Copy, PartialEq, Eq, Structural)]
pub struct Av1StdReferenceInfo {
    pub frame_type: u8,
    pub order_hint: u8,
}

/// The description of a key frame: no reference is used and every slot is refreshed.
pub open spec fn key_frame_picture() -> Av1StdPictureInfo {
    Av1StdPictureInfo {
        error_resilient_mode: true,
        frame_type: 0,
        order_hint: 0,
        primary_ref_frame: 7,
        refresh_frame_flags: 0xff,
        interpolation_filter: 4,
        tx_mode: 2,
    }
}

pub fn key_frame_std_picture_info() -> (r: Av1StdPictureInfo)
    ensures
        r == key_frame_picture(),
{
    Av1StdPictureInfo {
        error_resilient_mode: true,
        frame_type: AV1_FRAME_TYPE_KEY,
        order_hint: 0,
        primary_ref_frame: 7,
        refresh_frame_flags: 0xff,
        interpolation_filter: AV1_INTERPOLATION_FILTER_SWITCHABLE,
        tx_mode: AV1_TX_MODE_SELECT,
    }
}

pub fn key_frame_std_reference_info_for_order_hint(order_hint: u8) -> (r: Av1StdReferenceInfo)
    ensures
        r == (Av1StdReferenceInfo { frame_type: 0, order_hint }),
{
    Av1StdReferenceInfo { frame_type: 0, order_hint }
}

pub fn key_frame_std_reference_info(picture_info: &Av1DecodePictureInfoSkeleton) -> (r:
    Av1StdReferenceInfo)
    ensures
        r == (Av1StdReferenceInfo {
            frame_type: 0,
            order_hint: picture_info.std_picture_info.order_hint,
        }),
{
    key_frame_std_reference_info_for_order_hint(picture_info.std_picture_info.order_hint)
}

#[derive(Debug)]
pub struct Av1DecodePictureInfoSkeleton {
    pub std_picture_info: Av1StdPictureInfo,
    pub reference_name_slot_indices: Vec<i32>,
    pub frame_header_offset: u32,
    pub tile_offsets: Vec<u32>,
    pub tile_sizes: Vec<u32>,
}

/// Where the header and the tiles of a picture stand.
pub struct Picture {
    pub header: int,
    pub offsets: Seq<u32>,
    pub sizes: Seq<u32>,
}

impl View for Av1DecodePictureInfoSkeleton {
    type V = Picture;

    open spec fn view(&self) -> Picture {
        Picture {
            header: self.frame_header_offset as int,
            offsets: self.tile_offsets@,
            sizes: self.tile_sizes@,
        }
    }
}

impl Av1DecodePictureInfoSkeleton {
    /// The picture is a key frame that names no reference.
    pub open spec fn is_key_frame(self) -> bool {
        self.std_picture_info == key_frame_picture() && self.reference_name_slot_indices@
            == Seq::new(7, |i: int| -1i32)
    }
}

/// The picture of a frame, or why it cannot be decoded.
pub open spec fn picture_of(submit: Submit) -> Result<Picture, Seq<char>> {
    if submit.offsets.len() == 0 {
        Err("AV1 decode picture info requires at least one tile offset"@)
    } else if submit.offsets.len() != submit.sizes.len() {
        Err(
            "AV1 decode picture info tile offset/size count mismatch: offsets="@ + decimal(
                submit.offsets.len(),
            ) + ", sizes="@ + decimal(submit.sizes.len()),
        )
    } else if submit.sizes.contains(0u32) {
        Err("AV1 decode picture info contains an empty tile payload"@)
    } else {
        Ok(Picture { header: submit.header, offsets: submit.offsets, sizes: submit.sizes })
    }
}

fn has_zero(list: &Vec<u32>) -> (r: bool)
    ensures
        r == list@.contains(0u32),
{
    let mut i: usize = 0;
    while i < list.len()
        invariant
            i <= list.len(),
            forall|k: int| 0 <= k < i ==> list@[k] != 0,
        decreases list.len() - i,
    {
        if list[i] == 0 {
            assert(list@[i as int] == 0u32);
            return true;
        }
        i = i + 1;
    }
    false
}

fn copy_numbers(list: &Vec<u32>) -> (r: Vec<u32>)
    ensures
        r@ == list@,
{
    let mut out: Vec<u32> = Vec::new();
    let mut i: usize = 0;
    while i < list.len()
        invariant
            i <= list.len(),
            out@ == list@.take(i as int),
        decreases list.len() - i,
    {
        out.push(list[i]);
        i = i + 1;
        assert(out@ =~= list@.take(i as int));
    }
    assert(out@ =~= list@);
    out
}

fn no_references() -> (r: Vec<i32>)
    ensures
        r@ == Seq::new(7, |i: int| -1i32),
{
    let mut out: Vec<i32> = Vec::new();
    let mut i: usize = 0;
    while i < 7
        invariant
            i <= 7,
            out@ == Seq::new(i as nat, |k: int| -1i32),
        decreases 7 - i,
    {
        out.push(-1);
        i = i + 1;
        assert(out@ =~= Seq::new(i as nat, |k: int| -1i32));
    }
    out
}

pub fn build_av1_decode_picture_info_skeleton(submit: &Av1DecodeSubmitSkeleton) -> (r: Result<
    Av1DecodePictureInfoSkeleton,
    String,
>)
    ensures
        match picture_of(submit@) {
            Ok(picture) => r matches Ok(p) && p@ == picture && p.is_key_frame(),
            Err(e) => r matches Err(m) && m@ == e,
        },
{
    if submit.tile_offsets.len() == 0 {
        return Err(String::from_str("AV1 decode picture info requires at least one tile offset"));
    }
    if submit.tile_offsets.len() != submit.tile_sizes.len() {
        return Err(
            String::from_str(
                "AV1 decode picture info tile offset/size count mismatch: offsets=",
            ).concat(size_text(submit.tile_offsets.len()).as_str()).concat(", sizes=").concat(
                size_text(submit.tile_sizes.len()).as_str(),
            ),
        );
    }
    if has_zero(&submit.tile_sizes) {
        return Err(
            String::from_str("AV1 decode picture info contains an empty tile payload"),
        );
    }
    Ok(
        Av1DecodePictureInfoSkeleton {
            std_picture_info: key_frame_std_picture_info(),
            reference_name_slot_indices: no_references(),
            frame_header_offset: submit.frame_header_offset,
            tile_offsets: copy_numbers(&submit.tile_offsets),
            tile_sizes: copy_numbers(&submit.tile_sizes),
        },
    )
}

// ---------------------------------------------------------------------------
// The part of the bitstream that a picture needs

/// The smallest span that holds the header and the first `n` tiles.
pub open spec fn span(picture: Picture, n: nat) -> Result<(int, int), Seq<char>>
    decreases n,
{
    if n == 0 {
        if picture.header + 1 > u32::MAX {
            Err("AV1 frame header offset overflows u32"@)
        } else {
            Ok((picture.header, picture.header + 1))
        }
    } else {
        match span(picture, (n - 1) as nat) {
            Err(e) => Err(e),
            Ok((start, end)) => {
                let offset = picture.offsets[n - 1] as int;
                let size = picture.sizes[n - 1] as int;
                if size == 0 {
                    Err("AV1 decode info contains an empty tile payload"@)
                } else if offset + size > u32::MAX {
                    Err("AV1 tile payload range overflows u32"@)
                } else {
                    Ok(
                        (
                            if offset < start { offset } else { start },
                            if offset + size > end { offset + size } else { end },
                        ),
                    )
                }
            },
        }
    }
}

/// The number of tiles that have both an offset and a size.
pub open spec fn tile_pairs(picture: Picture) -> nat {
    if picture.offsets.len() < picture.sizes.len() {
        picture.offsets.len()
    } else {
        picture.sizes.len()
    }
}

/// Where the span of a picture starts and how long it is, or why it has none.
pub open spec fn source_range(len: nat, picture: Picture) -> Result<(int, int), Seq<char>> {
    match span(picture, tile_pairs(picture)) {
        Err(e) => Err(e),
        Ok((start, end)) => if len > u32::MAX {
            Err("AV1 bitstream is too large for Vulkan u32 offsets"@)
        } else if end > len {
            Err(
                "AV1 decode source range exceeds bitstream length: end="@ + decimal(end as nat)
                    + ", len="@ + decimal(len),
            )
        } else {
            Ok((start, end - start))
        },
    }
}

proof fn lemma_span_fault(picture: Picture, n: nat, total: nat)
    requires
        n <= total,
        span(picture, n) is Err,
    ensures
        span(picture, total) == span(picture, n),
    decreases total,
{
    if n < total {
        lemma_span_fault(picture, n, (total - 1) as nat);
    }
}

proof fn lemma_span(picture: Picture, n: nat)
    requires
        n <= tile_pairs(picture),
        0 <= picture.header,
        span(picture, n) is Ok,
    ensures
        0 <= span(picture, n)->Ok_0.0 <= picture.header < span(picture, n)->Ok_0.1 <= u32::MAX,
        forall|k: int|
            0 <= k < n ==> span(picture, n)->Ok_0.0 <= (#[trigger] picture.offsets[k])
                && picture.offsets[k] + picture.sizes[k] <= span(picture, n)->Ok_0.1,
    decreases n,
{
    if n > 0 {
        lemma_span(picture, (n - 1) as nat);
    }
}

/// The part of the bitstream that a decoder reads for a picture lies inside the
/// bitstream and holds the header and every tile.
pub proof fn law_source_range_covers_picture(len: nat, picture: Picture)
    requires
        0 <= picture.header,
        source_range(len, picture) is Ok,
    ensures
        ({
            let (start, size) = source_range(len, picture)->Ok_0;
            &&& 0 <= start <= picture.header < start + size <= len
            &&& forall|k: int|
                0 <= k < tile_pairs(picture) ==> start <= (#[trigger] picture.offsets[k])
                    && picture.offsets[k] + picture.sizes[k] <= start + size
        }),
{
    lemma_span(picture, tile_pairs(picture));
}

pub fn av1_decode_source_range(
    bitstream_len: usize,
    picture_info: &Av1DecodePictureInfoSkeleton,
) -> (r: Result<(u32, u32), String>)
    ensures
        match source_range(bitstream_len as nat, picture_info@) {
            Ok((start, size)) => r matches Ok(found) && found.0 == start && found.1 == size,
            Err(e) => r matches Err(m) && m@ == e,
        },
{
    let header: u32 = picture_info.frame_header_offset;
    let mut range_start: u32 = header;
    let mut range_end: u32 = match header.checked_add(1) {
        Some(end) => end,
        None => {
            proof {
                lemma_span_fault(picture_info@, 0, tile_pairs(picture_info@));
            }
            return Err(String::from_str("AV1 frame header offset overflows u32"));
        },
    };
    let count: usize = if picture_info.tile_offsets.len() < picture_info.tile_sizes.len() {
        picture_info.tile_offsets.len()
    } else {
        picture_info.tile_sizes.len()
    };
    let mut i: usize = 0;
    while i < count
        invariant
            i <= count,
            count == tile_pairs(picture_info@),
            span(picture_info@, i as nat) == Ok::<(int, int), Seq<char>>(
                (range_start as int, range_end as int),
            ),
        decreases count - i,
    {
        proof {
            if span(picture_info@, (i + 1) as nat) is Err {
                lemma_span_fault(picture_info@, (i + 1) as nat, count as nat);
            }
        }
        let offset: u32 = picture_info.tile_offsets[i];
        let size: u32 = picture_info.tile_sizes[i];
        if size == 0 {
            return Err(String::from_str("AV1 decode info contains an empty tile payload"));
        }
        let end: u32 = match offset.checked_add(size) {
            Some(end) => end,
            None => {
                return Err(String::from_str("AV1 tile payload range overflows u32"));
            },
        };
        if offset < range_start {
            range_start = offset;
        }
        if end > range_end {
            range_end = end;
        }
        i = i + 1;
    }
    if bitstream_len as u64 > 0xffff_ffff {
        return Err(String::from_str("AV1 bitstream is too large for Vulkan u32 offsets"));
    }
    if range_end > bitstream_len as u32 {
        return Err(
            String::from_str("AV1 decode source range exceeds bitstream length: end=").concat(
                decimal_text(range_end as u64).as_str(),
            ).concat(", len=").concat(size_text(bitstream_len).as_str()),
        );
    }
    proof {
        lemma_span(picture_info@, count as nat);
    }
    Ok((range_start, range_end - range_start))
}

/// The picture with its positions counted from `base`.
pub open spec fn rebased(picture: Picture, base: int) -> Picture {
    Picture {
        header: picture.header - base,
        offsets: Seq::new(picture.offsets.len(), |i: int| (picture.offsets[i] - base) as u32),
        sizes: picture.sizes,
    }
}

pub fn rebase_av1_picture_info_offsets(
    picture_info: Av1DecodePictureInfoSkeleton,
    src_buffer_offset: u32,
) -> (r: Result<Av1DecodePictureInfoSkeleton, String>)
    ensures
        ({
            let base = src_buffer_offset as int;
            if picture_info@.header < base {
                r matches Err(m) && m@ == "AV1 frame header offset precedes source buffer range"@
            } else if exists|k: int|
                0 <= k < picture_info@.offsets.len() && (#[trigger] picture_info@.offsets[k])
                    < base {
                r matches Err(m) && m@ == "AV1 tile offset precedes source buffer range"@
            } else {
                r matches Ok(p) && p@ == rebased(picture_info@, base) && p.std_picture_info
                    == picture_info.std_picture_info && p.reference_name_slot_indices@
                    == picture_info.reference_name_slot_indices@
            }
        }),
{
    if picture_info.frame_header_offset < src_buffer_offset {
        return Err(String::from_str("AV1 frame header offset precedes source buffer range"));
    }
    let mut offsets: Vec<u32> = Vec::new();
    let mut i: usize = 0;
    while i < picture_info.tile_offsets.len()
        invariant
            i <= picture_info.tile_offsets.len(),
            offsets@.len() == i,
            picture_info.frame_header_offset >= src_buffer_offset,
            forall|k: int|
                0 <= k < i ==> (#[trigger] picture_info.tile_offsets@[k]) >= src_buffer_offset,
            forall|k: int|
                0 <= k < i ==> #[trigger] offsets@[k] == (picture_info.tile_offsets@[k]
                    - src_buffer_offset) as u32,
        decreases picture_info.tile_offsets.len() - i,
    {
        let offset: u32 = picture_info.tile_offsets[i];
        if offset < src_buffer_offset {
            assert(picture_info@.offsets[i as int] < src_buffer_offset);
            return Err(String::from_str("AV1 tile offset precedes source buffer range"));
        }
        offsets.push(offset - src_buffer_offset);
        i = i + 1;
    }
    assert(offsets@ =~= rebased(picture_info@, src_buffer_offset as int).offsets);
    Ok(
        Av1DecodePictureInfoSkeleton {
            std_picture_info: picture_info.std_picture_info,
            reference_name_slot_indices: picture_info.reference_name_slot_indices,
            frame_header_offset: picture_info.frame_header_offset - src_buffer_offset,
            tile_offsets: offsets,
            tile_sizes: picture_info.tile_sizes,
        },
    )
}

// ---------------------------------------------------------------------------
// Decode operations

#[derive(Debug)]
pub struct Av1DecodeInfoSkeleton {
    pub temporal_unit_index: usize,
    pub src_buffer_offset: u64,
    pub src_buffer_range: u64,
    pub coded_width: u32,
    pub coded_height: u32,
    pub picture_info: Av1DecodePictureInfoSkeleton,
    pub setup_reference_info: Av1StdReferenceInfo,
}

/// A decode operation: the part of the buffer that it reads, the size of the image,
/// and where in that part the header and the tiles stand.
pub struct DecodeInfo {
    pub temporal_unit: int,
    pub source: int,
    pub range: int,
    pub width: int,
    pub height: int,
    pub picture: Picture,
}

impl View for Av1DecodeInfoSkeleton {
    type V = DecodeInfo;

    open spec fn view(&self) -> DecodeInfo {
        DecodeInfo {
            temporal_unit: self.temporal_unit_index as int,
            source: self.src_buffer_offset as int,
            range: self.src_buffer_range as int,
            width: self.coded_width as int,
            height: self.coded_height as int,
            picture: self.picture_info@,
        }
    }
}

impl Av1DecodeInfoSkeleton {
    /// The operation decodes a key frame and stores it as such.
    pub open spec fn is_key_frame(self) -> bool {
        self.picture_info.is_key_frame() && self.setup_reference_info == (Av1StdReferenceInfo {
            frame_type: 0,
            order_hint: 0,
        })
    }

    pub fn tile_count(&self) -> (r: usize)
        ensures
            r == self@.picture.offsets.len(),
    {
        self.picture_info.tile_offsets.len()
    }
}

pub open spec fn info_views(decodes: Seq<Av1DecodeInfoSkeleton>) -> Seq<DecodeInfo> {
    Seq::new(decodes.len(), |i: int| decodes[i]@)
}

pub open spec fn all_key_frames(decodes: Seq<Av1DecodeInfoSkeleton>) -> bool {
    forall|i: int| 0 <= i < decodes.len() ==> (#[trigger] decodes[i]).is_key_frame()
}

/// The decode operation of a frame, or why there is none.
pub open spec fn decode_info(len: nat, width: int, height: int, submit: Submit) -> Result<
    DecodeInfo,
    Seq<char>,
> {
    match picture_of(submit) {
        Err(e) => Err(e),
        Ok(picture) => match source_range(len, picture) {
            Err(e) => Err(e),
            Ok((start, size)) => Ok(
                DecodeInfo {
                    temporal_unit: submit.temporal_unit,
                    source: start,
                    range: size,
                    width,
                    height,
                    picture: rebased(picture, start),
                },
            ),
        },
    }
}

/// The positions in a decode operation name the same bytes as those of the frame:
/// counted from the start of the part that is read, they are where the frame has
/// them, and the part lies inside the bitstream.
pub proof fn law_decode_info_names_the_same_bytes(
    len: nat,
    width: int,
    height: int,
    submit: Submit,
)
    requires
        0 <= submit.header,
        decode_info(len, width, height, submit) is Ok,
    ensures
        ({
            let info = decode_info(len, width, height, submit)->Ok_0;
            &&& info.source + info.picture.header == submit.header
            &&& 0 <= info.picture.header < info.range
            &&& 0 <= info.source && info.source + info.range <= len
            &&& info.picture.offsets.len() == submit.offsets.len()
            &&& info.picture.sizes == submit.sizes
            &&& forall|k: int|
                0 <= k < submit.offsets.len() ==> info.source + (
                #[trigger] info.picture.offsets[k]) == submit.offsets[k]
                    && info.picture.offsets[k] + submit.sizes[k] <= info.range
        }),
{
    let picture = picture_of(submit)->Ok_0;
    law_source_range_covers_picture(len, picture);
    let info = decode_info(len, width, height, submit)->Ok_0;
    assert forall|k: int| 0 <= k < submit.offsets.len() implies info.source + (
    #[trigger] info.picture.offsets[k]) == submit.offsets[k] && info.picture.offsets[k]
        + submit.sizes[k] <= info.range by {
        assert(info.source <= picture.offsets[k]);
    }
}

pub fn build_av1_decode_info_skeleton_from_submit(
    bitstream_len: usize,
    coded_width: u32,
    coded_height: u32,
    submit: &Av1DecodeSubmitSkeleton,
) -> (r: Result<Av1DecodeInfoSkeleton, String>)
    ensures
        match decode_info(bitstream_len as nat, coded_width as int, coded_height as int, submit@) {
            Ok(info) => r matches Ok(d) && d@ == info && d.is_key_frame(),
            Err(e) => r matches Err(m) && m@ == e,
        },
{
    let picture_info = build_av1_decode_picture_info_skeleton(submit)?;
    let (source, range): (u32, u32) = av1_decode_source_range(bitstream_len, &picture_info)?;
    proof {
        law_source_range_covers_picture(bitstream_len as nat, picture_info@);
    }
    let picture = rebase_av1_picture_info_offsets(picture_info, source)?;
    let setup_reference_info = key_frame_std_reference_info(&picture);
    Ok(
        Av1DecodeInfoSkeleton {
            temporal_unit_index: submit.temporal_unit_index,
            src_buffer_offset: source as u64,
            src_buffer_range: range as u64,
            coded_width,
            coded_height,
            picture_info: picture,
            setup_reference_info,
        },
    )
}

/// Why no sequence header precedes the first frame, if none does.
pub open spec fn header_order_fault(b: Seq<u8>) -> Option<Seq<char>> {
    match obus(b) {
        Err(e) => Some(e),
        Ok(list) => {
            let header = first_of_type(list, Av1ObuType::SequenceHeader, 0);
            let frame = first_frame(list, 0);
            if header >= list.len() {
                Some("missing AV1 sequence header OBU before first frame"@)
            } else if frame < list.len() && list[header].start > list[frame].start {
                Some("AV1 sequence header OBU appears after the first frame payload"@)
            } else {
                None
            }
        },
    }
}

pub fn ensure_av1_sequence_header_before_first_frame(bitstream: &[u8]) -> (r: Result<(), String>)
    ensures
        match header_order_fault(bitstream@) {
            None => r is Ok,
            Some(e) => r matches Err(m) && m@ == e,
        },
{
    let records = parse_av1_low_overhead_obus(bitstream)?;
    let header: usize = find_type(&records, Av1ObuType::SequenceHeader);
    if header >= records.len() {
        return Err(String::from_str("missing AV1 sequence header OBU before first frame"));
    }
    let frame: usize = find_frame(&records);
    assert(obu_views(records@)[header as int] == records@[header as int]@);
    if frame < records.len() {
        assert(obu_views(records@)[frame as int] == records@[frame as int]@);
        if records[header].obu_range.start > records[frame].obu_range.start {
            return Err(
                String::from_str("AV1 sequence header OBU appears after the first frame payload"),
            );
        }
    }
    Ok(())
}

/// The decode operations of the first `n` frames.
pub open spec fn infos_upto(
    len: nat,
    width: int,
    height: int,
    frames: Seq<Submit>,
    n: nat,
) -> Result<Seq<DecodeInfo>, Seq<char>>
    decreases n,
{
    if n == 0 {
        Ok(Seq::empty())
    } else {
        match infos_upto(len, width, height, frames, (n - 1) as nat) {
            Err(e) => Err(e),
            Ok(before) => match decode_info(len, width, height, frames[n - 1]) {
                Err(e) => Err(e),
                Ok(info) => Ok(before.push(info)),
            },
        }
    }
}

proof fn lemma_infos_fault(
    len: nat,
    width: int,
    height: int,
    frames: Seq<Submit>,
    n: nat,
    total: nat,
)
    requires
        n <= total,
        infos_upto(len, width, height, frames, n) is Err,
    ensures
        infos_upto(len, width, height, frames, total) == infos_upto(len, width, height, frames, n),
    decreases total,
{
    if n < total {
        lemma_infos_fault(len, width, height, frames, n, (total - 1) as nat);
    }
}

/// The decode operations of a bitstream, or why there are none.
pub open spec fn decode_infos(b: Seq<u8>) -> Result<Seq<DecodeInfo>, Seq<char>> {
    match header_order_fault(b) {
        Some(e) => Err(e),
        None => match bitstream_header(b) {
            Err(e) => Err(e),
            Ok(header) => match bitstream_frames(b) {
                Err(e) => Err(e),
                Ok(frames) => infos_upto(
                    b.len(),
                    header.max_frame_width_minus_1 + 1,
                    header.max_frame_height_minus_1 + 1,
                    frames,
                    frames.len(),
                ),
            },
        },
    }
}

proof fn lemma_infos_in_bounds(
    len: nat,
    width: int,
    height: int,
    frames: Seq<Submit>,
    n: nat,
)
    requires
        n <= frames.len(),
        forall|k: int| 0 <= k < frames.len() ==> (#[trigger] frames[k]).header >= 0,
        infos_upto(len, width, height, frames, n) is Ok,
    ensures
        infos_upto(len, width, height, frames, n)->Ok_0.len() == n,
        forall|k: int|
            0 <= k < n ==> {
                let info = #[trigger] infos_upto(len, width, height, frames, n)->Ok_0[k];
                0 <= info.source && 0 < info.range && info.source + info.range <= len && info.width
                    == width && info.height == height && info.temporal_unit
                    == frames[k].temporal_unit
            },
    decreases n,
{
    if n > 0 {
        lemma_infos_in_bounds(len, width, height, frames, (n - 1) as nat);
        assert(frames[n - 1].header >= 0);
        law_decode_info_names_the_same_bytes(len, width, height, frames[n - 1]);
    }
}

/// Where an AV1 bitstream can be decoded, it has at least one frame; every decode
/// operation reads a part of the bitstream that is not empty, and all have the size
/// that the sequence header gives.
pub proof fn law_decode_infos_in_bounds(b: Seq<u8>)
    requires
        decode_infos(b) is Ok,
    ensures
        decode_infos(b)->Ok_0.len() == bitstream_frames(b)->Ok_0.len(),
        decode_infos(b)->Ok_0.len() > 0,
        forall|k: int|
            0 <= k < decode_infos(b)->Ok_0.len() ==> {
                let info = #[trigger] decode_infos(b)->Ok_0[k];
                0 <= info.source && 0 < info.range && info.source + info.range <= b.len()
                    && info.width == bitstream_header(b)->Ok_0.max_frame_width_minus_1 + 1
                    && info.height == bitstream_header(b)->Ok_0.max_frame_height_minus_1 + 1
            },
{
    let header = bitstream_header(b)->Ok_0;
    let frames = bitstream_frames(b)->Ok_0;
    law_frames_start_in_bounds(b);
    lemma_infos_in_bounds(
        b.len(),
        header.max_frame_width_minus_1 + 1,
        header.max_frame_height_minus_1 + 1,
        frames,
        frames.len(),
    );
}

proof fn lemma_frames_start(list: Seq<Obu>, n: nat)
    requires
        n <= list.len(),
        forall|i: int| 0 <= i < list.len() ==> (#[trigger] list[i]).payload_start >= 0,
        super::skeleton::frames_upto(list, n) is Ok,
    ensures
        forall|k: int|
            0 <= k < super::skeleton::frames_upto(list, n)->Ok_0.len() ==> (
            #[trigger] super::skeleton::frames_upto(list, n)->Ok_0[k]).header >= 0,
    decreases n,
{
    if n > 0 {
        lemma_frames_start(list, (n - 1) as nat);
        assert(list[n - 1].payload_start >= 0);
    }
}

/// Every frame of a bitstream has its header inside it.
pub proof fn law_frames_start_in_bounds(b: Seq<u8>)
    requires
        bitstream_frames(b) is Ok,
    ensures
        forall|k: int|
            0 <= k < bitstream_frames(b)->Ok_0.len() ==> (
            #[trigger] bitstream_frames(b)->Ok_0[k]).header >= 0,
{
    law_obus_in_order(b);
    let list = obus(b)->Ok_0;
    assert forall|i: int| 0 <= i < list.len() implies (#[trigger] list[i]).payload_start >= 0 by {
        assert(list[i].start >= 0);
    }
    lemma_frames_start(list, list.len());
}

/// The decode operations of a bitstream in order.
pub fn build_av1_decode_info_skeletons(bitstream: &[u8]) -> (r: Result<
    Vec<Av1DecodeInfoSkeleton>,
    String,
>)
    ensures
        match decode_infos(bitstream@) {
            Ok(infos) => r matches Ok(decodes) && info_views(decodes@) == infos && all_key_frames(
                decodes@,
            ),
            Err(e) => r matches Err(m) && m@ == e,
        },
{
    ensure_av1_sequence_header_before_first_frame(bitstream)?;
    let header = extract_av1_std_sequence_header(bitstream)?;
    let width: u32 = header.max_frame_width_minus_1 as u32 + 1;
    let height: u32 = header.max_frame_height_minus_1 as u32 + 1;
    let submits = build_av1_decode_submit_skeletons(bitstream)?;
    let ghost frames = submit_views(submits@);
    let mut decodes: Vec<Av1DecodeInfoSkeleton> = Vec::new();
    let mut i: usize = 0;
    assert(info_views(decodes@) =~= Seq::empty());
    while i < submits.len()
        invariant
            i <= submits.len(),
            frames == submit_views(submits@),
            decode_infos(bitstream@) == infos_upto(
                bitstream@.len(),
                width as int,
                height as int,
                frames,
                frames.len(),
            ),
            infos_upto(bitstream@.len(), width as int, height as int, frames, i as nat) == Ok::<
                Seq<DecodeInfo>,
                Seq<char>,
            >(info_views(decodes@)),
            all_key_frames(decodes@),
        decreases submits.len() - i,
    {
        proof {
            assert(frames[i as int] == submits@[i as int]@);
            if infos_upto(
                bitstream@.len(),
                width as int,
                height as int,
                frames,
                (i + 1) as nat,
            ) is Err {
                lemma_infos_fault(
                    bitstream@.len(),
                    width as int,
                    height as int,
                    frames,
                    (i + 1) as nat,
                    frames.len(),
                );
            }
        }
        let decode = build_av1_decode_info_skeleton_from_submit(
            bitstream.len(),
            width,
            height,
            &submits[i],
        )?;
        let ghost before = info_views(decodes@);
        decodes.push(decode);
        i = i + 1;
        assert(info_views(decodes@) =~= before.push(decode@));
    }
    Ok(decodes)
}

/// The first decode operation of a bitstream.
pub fn build_av1_decode_info_skeleton(bitstream: &[u8]) -> (r: Result<
    Av1DecodeInfoSkeleton,
    String,
>)
    ensures
        match decode_infos(bitstream@) {
            Ok(infos) => r matches Ok(decode) && decode@ == infos[0] && decode.is_key_frame(),
            Err(e) => r matches Err(m) && m@ == e,
        },
{
    let mut decodes = build_av1_decode_info_skeletons(bitstream)?;
    proof {
        law_decode_infos_in_bounds(bitstream@);
        assert(info_views(decodes@)[0] == decodes@[0]@);
    }
    let first = decodes.swap_remove(0);
    Ok(first)
}

} // verus!
