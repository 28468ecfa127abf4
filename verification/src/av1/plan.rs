//! Placing AV1 frames in an upload buffer and ordering the commands that decode them.

use super::decode::{
    all_key_frames, build_av1_decode_info_skeletons, decode_infos, info_views,
    law_decode_infos_in_bounds, Av1DecodeInfoSkeleton, DecodeInfo,
};
use vstd::prelude::*;
use vstd::slice::*;
use vstd::string::*;

verus! {

// ---------------------------------------------------------------------------
// Alignment

/// The least multiple of the alignment that is not below the value, held at the end
/// of the number range. An alignment of zero or one changes nothing.
pub open spec fn aligned(value: int, alignment: int) -> int {
    if alignment <= 1 || value % alignment == 0 {
        value
    } else if value + (alignment - value % alignment) > u64::MAX {
        u64::MAX as int
    } else {
        value + (alignment - value % alignment)
    }
}

/// Aligning never lowers a value, adds less than the alignment, and gives a multiple
/// of it; it changes no value that is one already. Excepted are values so great that
/// no multiple above them can be represented.
pub proof fn law_aligned(value: int, alignment: int)
    requires
        0 <= value <= u64::MAX,
        0 <= alignment,
    ensures
        value <= aligned(value, alignment) <= u64::MAX,
        alignment >= 1 ==> aligned(value, alignment) < value + alignment,
        alignment >= 1 && value + alignment <= u64::MAX ==> aligned(value, alignment) % alignment
            == 0,
        alignment >= 1 && value % alignment == 0 ==> aligned(value, alignment) == value,
{
    if alignment > 1 && value % alignment != 0 && value + alignment <= u64::MAX {
        let q = value / alignment;
        vstd::arithmetic::div_mod::lemma_fundamental_div_mod(value, alignment);
        assert(aligned(value, alignment) == alignment * (q + 1)) by (nonlinear_arith)
            requires
                value == alignment * q + value % alignment,
                aligned(value, alignment) == value + (alignment - value % alignment),
        ;
        vstd::arithmetic::div_mod::lemma_mod_multiples_basic(q + 1, alignment);
        assert(alignment * (q + 1) == (q + 1) * alignment) by (nonlinear_arith);
    }
}

pub fn align_up_av1_decode_value(value: u64, alignment: u64) -> (r: u64)
    ensures
        r == aligned(value as int, alignment as int),
{
    if alignment <= 1 {
        return value;
    }
    let remainder: u64 = value % alignment;
    if remainder == 0 {
        value
    } else {
        value.saturating_add(alignment - remainder)
    }
}

// ---------------------------------------------------------------------------
// The upload buffer

#[derive(Debug)]
pub struct Av1DecodeBitstreamUploadPlan {
    pub bytes: Vec<u8>,
    pub decodes: Vec<Av1DecodeInfoSkeleton>,
}

/// The length of the buffer after `n` frames have been placed.
pub open spec fn upload_len(
    infos: Seq<DecodeInfo>,
    offset_alignment: int,
    size_alignment: int,
    n: nat,
) -> int
    decreases n,
{
    if n == 0 {
        0
    } else {
        aligned(upload_len(infos, offset_alignment, size_alignment, (n - 1) as nat), offset_alignment)
            + aligned(infos[n - 1].range, size_alignment)
    }
}

/// Where frame `k` is placed.
pub open spec fn upload_offset(
    infos: Seq<DecodeInfo>,
    offset_alignment: int,
    size_alignment: int,
    k: int,
) -> int {
    aligned(upload_len(infos, offset_alignment, size_alignment, k as nat), offset_alignment)
}

pub open spec fn zeros(n: int) -> Seq<u8> {
    Seq::new(n as nat, |i: int| 0u8)
}

/// The buffer after `n` frames have been placed: each frame's part of the bitstream
/// at an aligned offset, filled up with zeros.
pub open spec fn upload_bytes(
    b: Seq<u8>,
    infos: Seq<DecodeInfo>,
    offset_alignment: int,
    size_alignment: int,
    n: nat,
) -> Seq<u8>
    decreases n,
{
    if n == 0 {
        Seq::empty()
    } else {
        let before = upload_bytes(b, infos, offset_alignment, size_alignment, (n - 1) as nat);
        let offset = upload_offset(infos, offset_alignment, size_alignment, n - 1);
        let info = infos[n - 1];
        before + zeros(offset - before.len()) + b.subrange(info.source, info.source + info.range)
            + zeros(aligned(info.range, size_alignment) - info.range)
    }
}

/// A decode operation that reads its frame from the buffer.
pub open spec fn placed(
    infos: Seq<DecodeInfo>,
    offset_alignment: int,
    size_alignment: int,
    k: int,
) -> DecodeInfo {
    DecodeInfo {
        source: upload_offset(infos, offset_alignment, size_alignment, k),
        range: aligned(infos[k].range, size_alignment),
        ..infos[k]
    }
}

pub open spec fn all_placed(
    infos: Seq<DecodeInfo>,
    offset_alignment: int,
    size_alignment: int,
) -> Seq<DecodeInfo> {
    Seq::new(infos.len(), |k: int| placed(infos, offset_alignment, size_alignment, k))
}

/// Every operation reads a part of the bitstream.
pub open spec fn reads_inside(infos: Seq<DecodeInfo>, len: nat) -> bool {
    forall|k: int|
        0 <= k < infos.len() ==> 0 <= (#[trigger] infos[k]).source && 0 < infos[k].range
            && infos[k].source + infos[k].range <= len
}

/// The buffer can be allocated after each of the first `n` frames.
pub open spec fn upload_fits(
    infos: Seq<DecodeInfo>,
    offset_alignment: int,
    size_alignment: int,
    n: nat,
) -> bool
    decreases n,
{
    n == 0 || (upload_fits(infos, offset_alignment, size_alignment, (n - 1) as nat) && upload_len(
        infos,
        offset_alignment,
        size_alignment,
        n,
    ) <= isize::MAX)
}

/// Why frame `k` has no place behind the frames before it that a machine can address, if
/// it has none.
pub open spec fn place_fault(
    infos: Seq<DecodeInfo>,
    offset_alignment: int,
    size_alignment: int,
    k: int,
) -> Option<Seq<char>> {
    let offset = upload_offset(infos, offset_alignment, size_alignment, k);
    let end = offset + aligned(infos[k].range, size_alignment);
    if offset - upload_len(infos, offset_alignment, size_alignment, k as nat) > usize::MAX {
        Some("AV1 upload offset padding exceeds usize"@)
    } else if end > usize::MAX && usize::MAX < u64::MAX {
        Some("AV1 aligned upload range exceeds usize"@)
    } else {
        None
    }
}

/// Why the first `n` frames have no place in a buffer, if they have none: the first
/// fault of a frame.
pub open spec fn upload_fault(
    infos: Seq<DecodeInfo>,
    offset_alignment: int,
    size_alignment: int,
    n: nat,
) -> Option<Seq<char>>
    decreases n,
{
    if n == 0 {
        None
    } else {
        match upload_fault(infos, offset_alignment, size_alignment, (n - 1) as nat) {
            Some(e) => Some(e),
            None => place_fault(infos, offset_alignment, size_alignment, n - 1),
        }
    }
}

/// The buffer can be allocated for as many of the first `n` frames as are placed before
/// a fault.
pub open spec fn upload_allocatable(
    infos: Seq<DecodeInfo>,
    offset_alignment: int,
    size_alignment: int,
    n: nat,
) -> bool
    decreases n,
{
    if n == 0 {
        true
    } else {
        let k = n - 1;
        let offset = upload_offset(infos, offset_alignment, size_alignment, k);
        &&& upload_allocatable(infos, offset_alignment, size_alignment, k as nat)
        &&& upload_fault(infos, offset_alignment, size_alignment, k as nat) is Some || offset
            - upload_len(infos, offset_alignment, size_alignment, k as nat) > usize::MAX || (offset
            + infos[k].range <= isize::MAX && (place_fault(
            infos,
            offset_alignment,
            size_alignment,
            k,
        ) is Some || upload_len(infos, offset_alignment, size_alignment, n) <= isize::MAX))
    }
}

/// A fault stays, and what is behind it need not be allocated.
proof fn lemma_fault_stays(
    infos: Seq<DecodeInfo>,
    offset_alignment: int,
    size_alignment: int,
    k: nat,
    n: nat,
)
    requires
        k <= n,
    ensures
        upload_allocatable(infos, offset_alignment, size_alignment, n) ==> upload_allocatable(
            infos,
            offset_alignment,
            size_alignment,
            k,
        ),
        upload_fault(infos, offset_alignment, size_alignment, k) is Some ==> upload_fault(
            infos,
            offset_alignment,
            size_alignment,
            n,
        ) == upload_fault(infos, offset_alignment, size_alignment, k) && upload_allocatable(
            infos,
            offset_alignment,
            size_alignment,
            n,
        ) == upload_allocatable(infos, offset_alignment, size_alignment, k),
    decreases n,
{
    if k < n {
        lemma_fault_stays(infos, offset_alignment, size_alignment, k, (n - 1) as nat);
    }
}

/// Frames that are all placed fit in the buffer.
pub proof fn lemma_placed_frames_fit(
    infos: Seq<DecodeInfo>,
    offset_alignment: int,
    size_alignment: int,
    n: nat,
)
    requires
        upload_allocatable(infos, offset_alignment, size_alignment, n),
        upload_fault(infos, offset_alignment, size_alignment, n) is None,
    ensures
        upload_fits(infos, offset_alignment, size_alignment, n),
    decreases n,
{
    if n > 0 {
        lemma_placed_frames_fit(infos, offset_alignment, size_alignment, (n - 1) as nat);
    }
}

/// A buffer is no shorter than the number of frames in it.
pub proof fn lemma_upload_len_counts(
    infos: Seq<DecodeInfo>,
    offset_alignment: int,
    size_alignment: int,
    n: nat,
)
    requires
        0 <= offset_alignment,
        0 <= size_alignment,
        n <= infos.len(),
        forall|i: int| 0 <= i < infos.len() ==> 0 < (#[trigger] infos[i]).range <= u64::MAX,
        upload_fits(infos, offset_alignment, size_alignment, n),
    ensures
        n <= upload_len(infos, offset_alignment, size_alignment, n),
    decreases n,
{
    if n > 0 {
        lemma_upload_len_counts(infos, offset_alignment, size_alignment, (n - 1) as nat);
        lemma_upload_grows(infos, offset_alignment, size_alignment, (n - 1) as nat, n);
        assert(0 < infos[n - 1].range);
    }
}

pub proof fn lemma_upload_grows(
    infos: Seq<DecodeInfo>,
    offset_alignment: int,
    size_alignment: int,
    k: nat,
    n: nat,
)
    requires
        0 <= offset_alignment,
        0 <= size_alignment,
        k <= n <= infos.len(),
        forall|i: int| 0 <= i < infos.len() ==> 0 <= (#[trigger] infos[i]).range <= u64::MAX,
        upload_fits(infos, offset_alignment, size_alignment, n),
    ensures
        upload_fits(infos, offset_alignment, size_alignment, k),
        0 <= upload_len(infos, offset_alignment, size_alignment, k) <= upload_len(
            infos,
            offset_alignment,
            size_alignment,
            n,
        ) <= isize::MAX,
        k < n ==> upload_len(infos, offset_alignment, size_alignment, k) <= upload_offset(
            infos,
            offset_alignment,
            size_alignment,
            k as int,
        ) && upload_offset(infos, offset_alignment, size_alignment, k as int) + aligned(
            infos[k as int].range,
            size_alignment,
        ) <= upload_len(infos, offset_alignment, size_alignment, n) && infos[k as int].range
            <= aligned(infos[k as int].range, size_alignment),
    decreases n,
{
    if n > 0 {
        lemma_upload_grows(
            infos,
            offset_alignment,
            size_alignment,
            if k < n { k } else { (n - 1) as nat },
            (n - 1) as nat,
        );
        assert(0 <= infos[n - 1].range <= u64::MAX);
        law_aligned(infos[n - 1].range, size_alignment);
        law_aligned(
            upload_len(infos, offset_alignment, size_alignment, (n - 1) as nat),
            offset_alignment,
        );
    }
}

pub proof fn lemma_upload_bytes_len(
    b: Seq<u8>,
    infos: Seq<DecodeInfo>,
    offset_alignment: int,
    size_alignment: int,
    n: nat,
)
    requires
        0 <= offset_alignment,
        0 <= size_alignment,
        n <= infos.len(),
        reads_inside(infos, b.len()),
        b.len() <= u64::MAX,
        upload_fits(infos, offset_alignment, size_alignment, n),
    ensures
        upload_bytes(b, infos, offset_alignment, size_alignment, n).len() == upload_len(
            infos,
            offset_alignment,
            size_alignment,
            n,
        ),
    decreases n,
{
    if n > 0 {
        lemma_upload_bytes_len(b, infos, offset_alignment, size_alignment, (n - 1) as nat);
        lemma_upload_grows(infos, offset_alignment, size_alignment, (n - 1) as nat, n);
        assert(0 <= infos[n - 1].source);
    }
}

/// The upload buffer keeps every frame: at the offset of frame `k` stands the part of
/// the bitstream that the frame is decoded from, and zeros follow up to its range.
pub proof fn law_upload_keeps_frames(
    b: Seq<u8>,
    infos: Seq<DecodeInfo>,
    offset_alignment: int,
    size_alignment: int,
    k: int,
    n: nat,
)
    requires
        0 <= offset_alignment,
        0 <= size_alignment,
        0 <= k < n <= infos.len(),
        reads_inside(infos, b.len()),
        b.len() <= u64::MAX,
        upload_fits(infos, offset_alignment, size_alignment, n),
    ensures
        ({
            let bytes = upload_bytes(b, infos, offset_alignment, size_alignment, n);
            let frame = placed(infos, offset_alignment, size_alignment, k);
            &&& 0 <= frame.source && infos[k].range <= frame.range && frame.source + frame.range
                <= bytes.len()
            &&& bytes.subrange(frame.source, frame.source + infos[k].range) == b.subrange(
                infos[k].source,
                infos[k].source + infos[k].range,
            )
            &&& forall|i: int|
                frame.source + infos[k].range <= i < frame.source + frame.range
                    ==> #[trigger] bytes[i] == 0
        }),
    decreases n,
{
    let bytes = upload_bytes(b, infos, offset_alignment, size_alignment, n);
    let before = upload_bytes(b, infos, offset_alignment, size_alignment, (n - 1) as nat);
    let frame = placed(infos, offset_alignment, size_alignment, k);
    lemma_upload_bytes_len(b, infos, offset_alignment, size_alignment, n);
    lemma_upload_bytes_len(b, infos, offset_alignment, size_alignment, (n - 1) as nat);
    lemma_upload_grows(infos, offset_alignment, size_alignment, k as nat, n);
    lemma_upload_grows(infos, offset_alignment, size_alignment, (n - 1) as nat, n);
    assert(0 <= infos[k].source && 0 <= infos[n - 1].source);
    if k == n - 1 {
        assert(bytes.subrange(frame.source, frame.source + infos[k].range) =~= b.subrange(
            infos[k].source,
            infos[k].source + infos[k].range,
        ));
    } else {
        law_upload_keeps_frames(
            b,
            infos,
            offset_alignment,
            size_alignment,
            k,
            (n - 1) as nat,
        );
        assert(forall|i: int| 0 <= i < before.len() ==> bytes[i] == before[i]);
        assert(bytes.subrange(frame.source, frame.source + infos[k].range) =~= before.subrange(
            frame.source,
            frame.source + infos[k].range,
        ));
    }
}

/// Frames do not overlap in the upload buffer: an earlier frame ends before a later
/// one starts.
pub proof fn law_upload_frames_are_disjoint(
    infos: Seq<DecodeInfo>,
    offset_alignment: int,
    size_alignment: int,
    j: int,
    k: int,
)
    requires
        0 <= offset_alignment,
        0 <= size_alignment,
        0 <= j < k < infos.len(),
        forall|i: int| 0 <= i < infos.len() ==> 0 <= (#[trigger] infos[i]).range <= u64::MAX,
        upload_fits(infos, offset_alignment, size_alignment, infos.len()),
    ensures
        placed(infos, offset_alignment, size_alignment, j).source + placed(
            infos,
            offset_alignment,
            size_alignment,
            j,
        ).range <= placed(infos, offset_alignment, size_alignment, k).source,
{
    lemma_upload_grows(infos, offset_alignment, size_alignment, k as nat, infos.len());
    lemma_upload_grows(infos, offset_alignment, size_alignment, j as nat, k as nat);
}

fn push_zeros(bytes: &mut Vec<u8>, count: usize)
    ensures
        final(bytes)@ == old(bytes)@ + zeros(count as int),
{
    let mut i: usize = 0;
    assert(bytes@ =~= old(bytes)@ + zeros(0));
    while i < count
        invariant
            i <= count,
            bytes@ == old(bytes)@ + zeros(i as int),
        decreases count - i,
    {
        bytes.push(0);
        i = i + 1;
        assert(bytes@ =~= old(bytes)@ + zeros(i as int));
    }
}

/// Whether the upload buffer for decode operations can be allocated, as far as they are
/// placed.
pub fn upload_plan_fits(
    decodes: &Vec<Av1DecodeInfoSkeleton>,
    offset_alignment: u64,
    size_alignment: u64,
) -> (r: bool)
    ensures
        r == upload_allocatable(
            info_views(decodes@),
            offset_alignment as int,
            size_alignment as int,
            decodes@.len(),
        ),
{
    let ghost infos = info_views(decodes@);
    let ghost oa = offset_alignment as int;
    let ghost sa = size_alignment as int;
    let mut len: u64 = 0;
    let mut i: usize = 0;
    while i < decodes.len()
        invariant
            i <= decodes.len(),
            infos == info_views(decodes@),
            oa == offset_alignment,
            sa == size_alignment,
            upload_allocatable(infos, oa, sa, i as nat),
            upload_fault(infos, oa, sa, i as nat) is None,
            len == upload_len(infos, oa, sa, i as nat),
            len <= isize::MAX,
        decreases decodes.len() - i,
    {
        proof {
            assert(infos[i as int] == decodes@[i as int]@);
            law_aligned(len as int, oa);
            law_aligned(decodes@[i as int].src_buffer_range as int, sa);
            lemma_fault_stays(infos, oa, sa, (i + 1) as nat, infos.len());
        }
        let offset: u64 = align_up_av1_decode_value(len, offset_alignment);
        if offset - len > usize::MAX as u64 {
            return true;
        }
        let filled: Option<u64> = offset.checked_add(decodes[i].src_buffer_range);
        if filled.is_none() || filled.unwrap() > isize::MAX as u64 {
            return false;
        }
        let range: u64 = align_up_av1_decode_value(decodes[i].src_buffer_range, size_alignment);
        let end: u64 = match offset.checked_add(range) {
            Some(end) => end,
            None => u64::MAX,
        };
        if end > usize::MAX as u64 {
            return true;
        }
        if end > isize::MAX as u64 {
            return false;
        }
        len = end;
        i = i + 1;
    }
    true
}

/// The frames of a bitstream placed in an upload buffer, each at an offset and with a
/// length that are multiples of the alignments.
pub fn build_av1_aligned_decode_bitstream_upload_plan(
    bitstream: &[u8],
    offset_alignment: u64,
    size_alignment: u64,
) -> (r: Result<Av1DecodeBitstreamUploadPlan, String>)
    requires
        decode_infos(bitstream@) matches Ok(infos) ==> upload_allocatable(
            infos,
            offset_alignment as int,
            size_alignment as int,
            infos.len(),
        ),
    ensures
        match decode_infos(bitstream@) {
            Err(e) => r matches Err(m) && m@ == e,
            Ok(infos) => match upload_fault(
                infos,
                offset_alignment as int,
                size_alignment as int,
                infos.len(),
            ) {
                Some(e) => r matches Err(m) && m@ == e,
                None => r matches Ok(plan) && plan.bytes@ == upload_bytes(
                    bitstream@,
                    infos,
                    offset_alignment as int,
                    size_alignment as int,
                    infos.len(),
                ) && info_views(plan.decodes@) == all_placed(
                    infos,
                    offset_alignment as int,
                    size_alignment as int,
                ) && all_key_frames(plan.decodes@),
            },
        },
{
    let sources = build_av1_decode_info_skeletons(bitstream)?;
    let ghost infos = info_views(sources@);
    let ghost oa = offset_alignment as int;
    let ghost sa = size_alignment as int;
    let count: usize = sources.len();
    let limit: usize = bitstream.len();
    proof {
        law_decode_infos_in_bounds(bitstream@);
        assert(reads_inside(infos, bitstream@.len()));
    }
    let mut bytes: Vec<u8> = Vec::new();
    let mut decodes: Vec<Av1DecodeInfoSkeleton> = sources;
    let mut i: usize = 0;
    while i < count
        invariant
            i <= count,
            count == infos.len(),
            limit == bitstream@.len(),
            decodes@.len() == count,
            oa == offset_alignment,
            sa == size_alignment,
            reads_inside(infos, bitstream@.len()),
            decode_infos(bitstream@) == Ok::<Seq<DecodeInfo>, Seq<char>>(infos),
            upload_allocatable(infos, oa, sa, infos.len()),
            upload_fault(infos, oa, sa, i as nat) is None,
            upload_fits(infos, oa, sa, i as nat),
            bytes@ == upload_bytes(bitstream@, infos, oa, sa, i as nat),
            forall|k: int| 0 <= k < i ==> (#[trigger] decodes@[k])@ == placed(infos, oa, sa, k),
            forall|k: int| i <= k < count ==> (#[trigger] decodes@[k])@ == infos[k],
            all_key_frames(decodes@),
        decreases count - i,
    {
        proof {
            lemma_fault_stays(infos, oa, sa, (i + 1) as nat, infos.len());
            lemma_upload_grows(infos, oa, sa, i as nat, i as nat);
            lemma_upload_bytes_len(bitstream@, infos, oa, sa, i as nat);
            assert(0 <= infos[i as int].source);
            assert(decodes@[i as int]@ == infos[i as int]);
            law_aligned(bytes@.len() as int, oa);
            law_aligned(infos[i as int].range, sa);
        }
        let source: usize = decodes[i].src_buffer_offset as usize;
        let range: usize = decodes[i].src_buffer_range as usize;
        let offset: u64 = align_up_av1_decode_value(bytes.len() as u64, offset_alignment);
        let aligned_range: u64 = align_up_av1_decode_value(range as u64, size_alignment);
        let held: usize = bytes.len();
        if offset - held as u64 > usize::MAX as u64 {
            return Err(String::from_str("AV1 upload offset padding exceeds usize"));
        }
        let end: u64 = match offset.checked_add(aligned_range) {
            Some(end) => end,
            None => u64::MAX,
        };
        if end > usize::MAX as u64 {
            return Err(String::from_str("AV1 aligned upload range exceeds usize"));
        }
        proof {
            lemma_upload_grows(infos, oa, sa, i as nat, (i + 1) as nat);
        }
        push_zeros(&mut bytes, offset as usize - held);
        bytes.extend_from_slice(slice_subrange(bitstream, source, source + range));
        push_zeros(&mut bytes, aligned_range as usize - range);
        let ghost before = decodes@;
        set_source(&mut decodes, i, offset, aligned_range);
        i = i + 1;
        proof {
            assert(bytes@ =~= upload_bytes(bitstream@, infos, oa, sa, i as nat));
        }
    }
    assert(info_views(decodes@) =~= all_placed(infos, oa, sa));
    Ok(Av1DecodeBitstreamUploadPlan { bytes, decodes })
}

/// Lets one operation read from another part of a buffer.
fn set_source(decodes: &mut Vec<Av1DecodeInfoSkeleton>, at: usize, offset: u64, range: u64)
    requires
        at < old(decodes)@.len(),
        all_key_frames(old(decodes)@),
    ensures
        final(decodes)@.len() == old(decodes)@.len(),
        forall|k: int|
            0 <= k < old(decodes)@.len() && k != at ==> final(decodes)@[k] == old(decodes)@[k],
        final(decodes)@[at as int]@ == (DecodeInfo {
            source: offset as int,
            range: range as int,
            ..old(decodes)@[at as int]@
        }),
        all_key_frames(final(decodes)@),
{
    let decode = decodes.remove(at);
    assert(decode.is_key_frame());
    let moved = Av1DecodeInfoSkeleton {
        temporal_unit_index: decode.temporal_unit_index,
        src_buffer_offset: offset,
        src_buffer_range: range,
        coded_width: decode.coded_width,
        coded_height: decode.coded_height,
        picture_info: decode.picture_info,
        setup_reference_info: decode.setup_reference_info,
    };
    decodes.insert(at, moved);
    assert forall|k: int| 0 <= k < decodes@.len() implies (#[trigger] decodes@[k]).is_key_frame() by {
        if k != at {
            assert(decodes@[k] == old(decodes)@[k]);
        }
    }
}

} // verus!
