//! Frames of an HEVC stream from its access units and what was read back.

use super::decode::{
    bare_frame, metadata_only_frame, nv12_argb, nv12_payload_of, nv12_to_argb, readback_fault,
};
use super::time::{decode_pts_step, frame_pts, frame_time, pts_step};
use crate::error::{error_is, unsupported_config, BackendError, BackendErrorKind};
use crate::frame::Frame;
use crate::order::{law_ordered_is_sorted_permutation, order_by_key, ordered};
use crate::pixel::{chroma_in_bounds, nv12_total};
use crate::text::{decimal, decimal_text, size_text};
use crate::vk_names::{format_name, format_name_text};
use crate::vulkan::FORMAT_NV12;
use vstd::prelude::*;
use vstd::slice::*;
use vstd::string::*;

verus! {

/// What the header of an access unit says.
#[derive(Debug, Clone, Copy, PartialEq, Eq, Structural)]
pub struct HevcAccessUnitHeader {
    pub poc_full: i32,
    pub nal_unit_type: u8,
}

/// What was read back of a decoded stream.
#[derive(Debug, Clone)]
pub struct HevcReadback {
    pub output_format: i32,
    pub coded_width: u32,
    pub coded_height: u32,
    pub max_dpb_slots: u32,
    pub readback_non_zero: bool,
    pub readback_bytes: usize,
    pub readback_planes: u32,
    pub readback_sample_stride: usize,
    pub readback_sample_count: u32,
    pub readback_sample: Vec<u8>,
    pub submitted_access_units: u32,
}

// ---------------------------------------------------------------------------
// Flags

/// The slot above bit 0, bit 0 for a picture that is not blank, and bit 31 for a
/// picture that was read back.
pub open spec fn decode_info_flags(slot: int, covered: bool, non_zero: bool) -> u32 {
    let held = if slot > u32::MAX { u32::MAX } else { slot as u32 };
    (held << 1u32) | (if covered && non_zero { 1u32 } else { 0u32 }) | (if covered {
        0x8000_0000u32
    } else {
        0u32
    })
}

pub fn build_hevc_metadata_decode_info_flags(
    slot: usize,
    probe_covered: bool,
    readback_non_zero: bool,
) -> (r: u32)
    ensures
        r == decode_info_flags(slot as int, probe_covered, readback_non_zero),
{
    let held: u32 = if slot as u64 > 0xffff_ffff { 0xffff_ffff } else { slot as u32 };
    let slot_bits: u32 = held << 1;
    let readback_bits: u32 = if probe_covered && readback_non_zero { 1 } else { 0 };
    let probe_bits: u32 = if probe_covered { 0x8000_0000 } else { 0 };
    slot_bits | readback_bits | probe_bits
}

/// Slot, blankness and coverage can be told from the flags. Slots that reach into the
/// topmost bit are excepted.
pub proof fn law_decode_info_flags_can_be_read(slot: int, covered: bool, non_zero: bool)
    requires
        0 <= slot < 0x4000_0000,
    ensures
        (decode_info_flags(slot, covered, non_zero) >> 1u32) & 0x3fff_ffffu32 == slot,
        decode_info_flags(slot, covered, non_zero) & 1u32 == (if covered && non_zero {
            1u32
        } else {
            0u32
        }),
        decode_info_flags(slot, covered, non_zero) & 0x8000_0000u32 == (if covered {
            0x8000_0000u32
        } else {
            0u32
        }),
{
    let s = slot as u32;
    assert((((s << 1u32) | 1u32 | 0x8000_0000u32) >> 1u32) & 0x3fff_ffffu32 == s
        && ((s << 1u32) | 1u32 | 0x8000_0000u32) & 1u32 == 1u32
        && ((s << 1u32) | 1u32 | 0x8000_0000u32) & 0x8000_0000u32 == 0x8000_0000u32
        && (((s << 1u32) | 0u32 | 0x8000_0000u32) >> 1u32) & 0x3fff_ffffu32 == s
        && ((s << 1u32) | 0u32 | 0x8000_0000u32) & 1u32 == 0u32
        && ((s << 1u32) | 0u32 | 0x8000_0000u32) & 0x8000_0000u32 == 0x8000_0000u32
        && (((s << 1u32) | 0u32 | 0u32) >> 1u32) & 0x3fff_ffffu32 == s
        && ((s << 1u32) | 0u32 | 0u32) & 1u32 == 0u32
        && ((s << 1u32) | 0u32 | 0u32) & 0x8000_0000u32 == 0u32) by (bit_vector)
        requires
            s < 0x4000_0000u32,
    ;
}

// ---------------------------------------------------------------------------
// Samples

/// Where sample `index` lies, or why there is none.
pub open spec fn sample_fault(len: nat, stride: usize, index: usize) -> Option<Seq<char>> {
    let start = index * stride;
    if stride == 0 {
        Some("Vulkan HEVC readback sample stride must be greater than zero"@)
    } else if start > usize::MAX {
        Some("Vulkan HEVC readback sample offset overflow"@)
    } else if start + stride > usize::MAX {
        Some("Vulkan HEVC readback sample end offset overflow"@)
    } else if start + stride > len {
        Some(
            "Vulkan HEVC readback sample range out of bounds: index="@ + decimal(index as nat)
                + ", stride="@ + decimal(stride as nat) + ", total="@ + decimal(len),
        )
    } else {
        None
    }
}

/// Sample `index` of equally long samples.
pub open spec fn sample_at(samples: Seq<u8>, stride: usize, index: usize) -> Seq<u8> {
    samples.subrange(index * stride, index * stride + stride)
}

pub fn hevc_probe_readback_sample_at(
    readback_sample: &[u8],
    sample_stride: usize,
    sample_index: usize,
) -> (r: Result<&[u8], BackendError>)
    ensures
        match sample_fault(readback_sample@.len(), sample_stride, sample_index) {
            Some(e) => r matches Err(m) && error_is(m, BackendErrorKind::UnsupportedConfig, e),
            None => r matches Ok(sample) && sample@ == sample_at(
                readback_sample@,
                sample_stride,
                sample_index,
            ) && sample@.len() == sample_stride,
        },
{
    if sample_stride == 0 {
        return Err(
            unsupported_config("Vulkan HEVC readback sample stride must be greater than zero"),
        );
    }
    assert(0 <= sample_index * sample_stride) by (nonlinear_arith);
    let start: usize = match sample_index.checked_mul(sample_stride) {
        Some(start) => start,
        None => {
            return Err(unsupported_config("Vulkan HEVC readback sample offset overflow"));
        },
    };
    let end: usize = match start.checked_add(sample_stride) {
        Some(end) => end,
        None => {
            return Err(unsupported_config("Vulkan HEVC readback sample end offset overflow"));
        },
    };
    if end > readback_sample.len() {
        return Err(
            BackendError::UnsupportedConfig(
                String::from_str(
                    "Vulkan HEVC readback sample range out of bounds: index=",
                ).concat(size_text(sample_index).as_str()).concat(", stride=").concat(
                    size_text(sample_stride).as_str(),
                ).concat(", total=").concat(size_text(readback_sample.len()).as_str()),
            ),
        );
    }
    Ok(slice_subrange(readback_sample, start, end))
}

/// A sample of an even size holds all its chroma samples.
proof fn lemma_even_chroma(width: nat, height: nat)
    requires
        width % 2 == 0,
        height % 2 == 0,
        width > 0,
        height > 0,
    ensures
        chroma_in_bounds(
            nv12_total((width * height) as int) as nat,
            width as int,
            (width * height) as int,
            width as int,
            height as int,
        ),
{
    let half = (height / 2) as int;
    let w = width as int;
    assert(width * height == 2 * (half * w)) by (nonlinear_arith)
        requires
            height == 2 * half,
            w == width,
    ;
    assert((half - 1) * w == half * w - w) by (nonlinear_arith);
    assert((height - 1) / 2 == half - 1);
    assert(((width - 1) / 2) * 2 == width - 2);
}

pub open spec fn format_fault(name: Seq<char>) -> Seq<char> {
    "Vulkan HEVC non-metadata output currently requires G8_B8R8_2PLANE_420_UNORM readback (got "@
        + name + ")"@
}

/// The sample as ARGB data, given the name of its format.
pub open spec fn argb_fault(
    name: Seq<char>,
    format: i32,
    sample: Seq<u8>,
    width: usize,
    height: usize,
) -> Option<(BackendErrorKind, Seq<char>)> {
    if format != 1_000_156_003 {
        Some((BackendErrorKind::UnsupportedConfig, format_fault(name)))
    } else if readback_fault("HEVC"@, sample.len(), width, height) is Some {
        Some(
            (
                BackendErrorKind::UnsupportedConfig,
                readback_fault("HEVC"@, sample.len(), width, height)->0,
            ),
        )
    } else if width == 0 || height == 0 {
        Some((BackendErrorKind::InvalidInput, "nv12 frame dimensions must be positive"@))
    } else {
        None
    }
}

/// A sample that was read back as ARGB data, given the name of its format.
pub fn hevc_readback_to_argb_named(
    format_name: &str,
    output_format: i32,
    readback_sample: &[u8],
    width: usize,
    height: usize,
) -> (r: Result<Vec<u8>, BackendError>)
    requires
        argb_fault(format_name@, output_format, readback_sample@, width, height) is None ==> 4 * (
        width * height) <= isize::MAX,
    ensures
        match argb_fault(format_name@, output_format, readback_sample@, width, height) {
            Some((kind, e)) => r matches Err(m) && error_is(m, kind, e),
            None => r matches Ok(argb) && argb@ == nv12_argb(
                readback_sample@.take(nv12_total(width * height)),
                width as nat,
                height as nat,
            ),
        },
{
    if output_format != FORMAT_NV12 {
        return Err(
            BackendError::UnsupportedConfig(
                String::from_str(
                    "Vulkan HEVC non-metadata output currently requires G8_B8R8_2PLANE_420_UNORM readback (got ",
                ).concat(format_name).concat(")"),
            ),
        );
    }
    let data = nv12_payload_of("HEVC", readback_sample, width, height)?;
    proof {
        assert(0 <= width * height) by (nonlinear_arith);
        if width > 0 && height > 0 {
            lemma_even_chroma(width as nat, height as nat);
        }
    }
    nv12_to_argb(data, width, height)
}

/// A sample that was read back as ARGB data.
pub fn hevc_probe_readback_to_argb(
    output_format: i32,
    readback_sample: &[u8],
    width: usize,
    height: usize,
) -> (r: Result<Vec<u8>, BackendError>)
    requires
        output_format == 1_000_156_003 && readback_fault(
            "HEVC"@,
            readback_sample@.len(),
            width,
            height,
        ) is None ==> 4 * (width * height) <= isize::MAX,
    ensures
        match argb_fault(
            format_name(output_format),
            output_format,
            readback_sample@,
            width,
            height,
        ) {
            Some((kind, e)) => r matches Err(m) && error_is(m, kind, e),
            None => r matches Ok(argb) && argb@ == nv12_argb(
                readback_sample@.take(nv12_total(width * height)),
                width as nat,
                height as nat,
            ),
        },
{
    let name = format_name_text(output_format);
    hevc_readback_to_argb_named(name.as_str(), output_format, readback_sample, width, height)
}

// ---------------------------------------------------------------------------
// Coverage

pub open spec fn handoff(bytes: usize, planes: u32, submitted: u32) -> Seq<char> {
    "; readback_handoff=bytes:"@ + decimal(bytes as nat) + ", planes:"@ + decimal(planes as nat)
        + ", submitted_access_units:"@ + decimal(submitted as nat)
}

fn handoff_text(bytes: usize, planes: u32, submitted: u32) -> (r: String)
    ensures
        r@ == handoff(bytes, planes, submitted),
{
    String::from_str("; readback_handoff=bytes:").concat(size_text(bytes).as_str()).concat(
        ", planes:",
    ).concat(decimal_text(planes as u64).as_str()).concat(", submitted_access_units:").concat(
        decimal_text(submitted as u64).as_str(),
    )
}

/// Why pixels are not available for the whole stream, if they are not.
pub open spec fn coverage_fault(
    metadata_only: bool,
    total: usize,
    covered: usize,
    bytes: usize,
    planes: u32,
    submitted: u32,
) -> Option<Seq<char>> {
    if metadata_only {
        None
    } else if covered == 0 || total == 0 {
        Some(
            "Vulkan HEVC non-metadata output requires at least one probe-covered access unit"@
                + handoff(bytes, planes, submitted),
        )
    } else if total > covered {
        Some(
            "Vulkan HEVC non-metadata output currently supports up to "@ + decimal(covered as nat)
                + " probe-covered access units, but stream has "@ + decimal(total as nat)
                + handoff(bytes, planes, submitted),
        )
    } else {
        None
    }
}

pub fn ensure_hevc_non_metadata_probe_coverage(
    metadata_only: bool,
    total_access_units: usize,
    probe_covered_access_units: usize,
    readback_bytes: usize,
    readback_planes: u32,
    submitted_access_units: u32,
) -> (r: Result<(), BackendError>)
    ensures
        match coverage_fault(
            metadata_only,
            total_access_units,
            probe_covered_access_units,
            readback_bytes,
            readback_planes,
            submitted_access_units,
        ) {
            None => r is Ok,
            Some(e) => r matches Err(m) && error_is(m, BackendErrorKind::UnsupportedConfig, e),
        },
{
    if metadata_only {
        return Ok(());
    }
    if probe_covered_access_units == 0 || total_access_units == 0 {
        return Err(
            BackendError::UnsupportedConfig(
                String::from_str(
                    "Vulkan HEVC non-metadata output requires at least one probe-covered access unit",
                ).concat(
                    handoff_text(
                        readback_bytes,
                        readback_planes,
                        submitted_access_units,
                    ).as_str(),
                ),
            ),
        );
    }
    if total_access_units > probe_covered_access_units {
        return Err(
            BackendError::UnsupportedConfig(
                String::from_str(
                    "Vulkan HEVC non-metadata output currently supports up to ",
                ).concat(size_text(probe_covered_access_units).as_str()).concat(
                    " probe-covered access units, but stream has ",
                ).concat(size_text(total_access_units).as_str()).concat(
                    handoff_text(
                        readback_bytes,
                        readback_planes,
                        submitted_access_units,
                    ).as_str(),
                ),
            ),
        );
    }
    Ok(())
}

/// How many access units are asked for: as many as the device takes where only their
/// headers matter, and all of the stream where pixels are wanted.
pub fn hevc_decode_access_unit_limit(metadata_only: bool, access_units: usize) -> (r: Option<usize>)
    ensures
        r == (if metadata_only { None } else { Some(access_units) }),
{
    if metadata_only { None } else { Some(access_units) }
}

/// What follows an attempt to decode a stream.
#[derive(Debug, Clone, Copy, PartialEq, Eq, Structural)]
pub enum HevcDecodeStep {
    Proceed,
    TryAgain,
    GiveUp,
}

/// How often a stream is tried.
pub const HEVC_DECODE_ATTEMPTS: u32 = 2;

/// What follows the attempt with a number, counted from one: a failed attempt is
/// repeated once.
pub fn next_hevc_decode_step(attempt: u32, succeeded: bool) -> (r: HevcDecodeStep)
    ensures
        r == (if succeeded {
            HevcDecodeStep::Proceed
        } else if attempt < 2 {
            HevcDecodeStep::TryAgain
        } else {
            HevcDecodeStep::GiveUp
        }),
{
    if succeeded {
        HevcDecodeStep::Proceed
    } else if attempt < HEVC_DECODE_ATTEMPTS {
        HevcDecodeStep::TryAgain
    } else {
        HevcDecodeStep::GiveUp
    }
}

// ---------------------------------------------------------------------------
// Display order

/// Frames in display order with times that follow each other.
pub open spec fn displayed(items: Seq<(i32, Frame)>, start: i64, step: i64) -> Seq<Frame> {
    Seq::new(
        items.len(),
        |d: int|
            (Frame { pts_90k: Some(frame_time(start, d, step)), ..ordered(items)[d].1 }),
    )
}

/// Frames by their picture order count, with times that follow each other. Frames
/// with the same count keep their order.
pub fn sort_hevc_display_order_frames(
    frames_with_poc: Vec<(i32, Frame)>,
    start_pts_90k: i64,
    step: i64,
) -> (r: Vec<Frame>)
    ensures
        r@ == displayed(frames_with_poc@, start_pts_90k, step),
{
    let ghost items = frames_with_poc@;
    proof {
        law_ordered_is_sorted_permutation(items);
    }
    let mut sorted = order_by_key(frames_with_poc);
    let mut out: Vec<Frame> = Vec::new();
    let mut d: usize = 0;
    assert(sorted@ =~= ordered(items).skip(0));
    while sorted.len() > 0
        invariant
            ordered(items).len() == items.len(),
            d + sorted@.len() == items.len(),
            sorted@ == ordered(items).skip(d as int),
            out@ =~= displayed(items, start_pts_90k, step).take(d as int),
        decreases sorted.len(),
    {
        let left: usize = sorted.len();
        let (_poc, mut frame) = sorted.remove(0);
        frame.pts_90k = Some(frame_pts(start_pts_90k, d, step));
        out.push(frame);
        assert(sorted@ =~= ordered(items).skip(d + 1));
        proof {
            assert(d + 1 <= out@.len());
        }
        d = out.len();
    }
    assert(out@ =~= displayed(items, start_pts_90k, step));
    out
}

// ---------------------------------------------------------------------------
// Frames

/// Access units that start anew.
pub open spec fn is_idr(header: HevcAccessUnitHeader) -> bool {
    header.nal_unit_type == 19 || header.nal_unit_type == 20
}

/// The number of access units since the last one that started anew.
pub open spec fn since_idr(headers: Seq<HevcAccessUnitHeader>, i: int) -> int
    decreases i,
{
    if i <= 0 || is_idr(headers[i]) { 0 } else { since_idr(headers, i - 1) + 1 }
}

/// The number of slots that pictures are stored in, in turn.
pub open spec fn slot_count(readback: HevcReadback) -> int {
    if readback.max_dpb_slots == 0 { 1 } else { readback.max_dpb_slots as int }
}

/// The frame of access unit `i`, before it has a time.
pub open spec fn is_unit_frame(
    frame: Frame,
    headers: Seq<HevcAccessUnitHeader>,
    readback: HevcReadback,
    metadata_only: bool,
    i: int,
) -> bool {
    let width = readback.coded_width as usize;
    let height = readback.coded_height as usize;
    let plain = Frame {
        decode_info_flags: Some(
            decode_info_flags(
                since_idr(headers, i) % slot_count(readback),
                i < readback.submitted_access_units,
                readback.readback_non_zero,
            ),
        ),
        force_keyframe: is_idr(headers[i]),
        ..bare_frame(width, height, None)
    };
    if metadata_only {
        frame == plain
    } else {
        frame == (Frame { argb: frame.argb, ..plain }) && (frame.argb matches Some(argb) && argb@
            == nv12_argb(
            sample_at(
                readback.readback_sample@,
                readback.readback_sample_stride,
                i as usize,
            ).take(nv12_total(width * height)),
            width as nat,
            height as nat,
        ))
    }
}

/// The frames of all access units, before they have times.
pub open spec fn are_unit_frames(
    items: Seq<(i32, Frame)>,
    headers: Seq<HevcAccessUnitHeader>,
    readback: HevcReadback,
    metadata_only: bool,
) -> bool {
    items.len() == headers.len() && forall|i: int|
        0 <= i < headers.len() ==> (#[trigger] items[i]).0 == headers[i].poc_full && is_unit_frame(
            items[i].1,
            headers,
            readback,
            metadata_only,
            i,
        )
}

/// Why sample `i` gives no pixels, if it gives none.
pub open spec fn unit_fault(readback: HevcReadback, name: Seq<char>, i: int) -> Option<
    (BackendErrorKind, Seq<char>),
> {
    let stride = readback.readback_sample_stride;
    match sample_fault(readback.readback_sample@.len(), stride, i as usize) {
        Some(e) => Some((BackendErrorKind::UnsupportedConfig, e)),
        None => argb_fault(
            name,
            readback.output_format,
            sample_at(readback.readback_sample@, stride, i as usize),
            readback.coded_width as usize,
            readback.coded_height as usize,
        ),
    }
}

/// The first of `n` samples from `from` on that gives no pixels, or `n`.
pub open spec fn first_faulty(readback: HevcReadback, name: Seq<char>, from: int, n: int) -> int
    decreases n - from,
{
    if from >= n {
        n
    } else if unit_fault(readback, name, from) is Some {
        from
    } else {
        first_faulty(readback, name, from + 1, n)
    }
}

proof fn lemma_first_faulty(readback: HevcReadback, name: Seq<char>, from: int, n: int)
    ensures
        first_faulty(readback, name, from, n) < n ==> unit_fault(
            readback,
            name,
            first_faulty(readback, name, from, n),
        ) is Some,
    decreases n - from,
{
    if from < n && unit_fault(readback, name, from) is None {
        lemma_first_faulty(readback, name, from + 1, n);
    }
}

pub open spec fn few_samples_message(count: u32, needed: nat, readback: HevcReadback) -> Seq<char> {
    "Vulkan HEVC non-metadata output readback sample count is too small: got "@ + decimal(
        count as nat,
    ) + ", need at least "@ + decimal(needed) + "; readback_handoff=bytes:"@ + decimal(
        readback.readback_bytes as nat,
    ) + ", planes:"@ + decimal(readback.readback_planes as nat) + ", sample_stride:"@ + decimal(
        readback.readback_sample_stride as nat,
    ) + ", submitted_access_units:"@ + decimal(readback.submitted_access_units as nat)
}

/// Why a stream gives no frames, if it gives none.
pub open spec fn stream_fault(
    headers: Seq<HevcAccessUnitHeader>,
    readback: HevcReadback,
    metadata_only: bool,
    name: Seq<char>,
) -> Option<(BackendErrorKind, Seq<char>)> {
    let n = headers.len() as int;
    let coverage = coverage_fault(
        metadata_only,
        n as usize,
        readback.submitted_access_units as usize,
        readback.readback_bytes,
        readback.readback_planes,
        readback.submitted_access_units,
    );
    if readback.submitted_access_units == 0 {
        Some(
            (
                BackendErrorKind::UnsupportedConfig,
                "Vulkan HEVC decode submit execution reported submitted_access_units=0"@,
            ),
        )
    } else if coverage is Some {
        Some((BackendErrorKind::UnsupportedConfig, coverage->0))
    } else if metadata_only {
        None
    } else if readback.readback_sample_count < n {
        Some(
            (
                BackendErrorKind::UnsupportedConfig,
                few_samples_message(readback.readback_sample_count, n as nat, readback),
            ),
        )
    } else if first_faulty(readback, name, 0, n) < n {
        unit_fault(readback, name, first_faulty(readback, name, 0, n))
    } else {
        None
    }
}

/// The pixels of at least one access unit are converted. What the format is called makes
/// no difference here.
pub open spec fn gives_pixels(
    headers: Seq<HevcAccessUnitHeader>,
    readback: HevcReadback,
    metadata_only: bool,
) -> bool {
    &&& !metadata_only
    &&& 0 < headers.len() <= readback.submitted_access_units
    &&& headers.len() <= readback.readback_sample_count
    &&& unit_fault(readback, Seq::empty(), 0) is None
}

/// The pixels of every access unit.
fn collect_argb(readback: &HevcReadback, name: &str, count: usize) -> (r: Result<
    Vec<Vec<u8>>,
    BackendError,
>)
    requires
        count > 0 && unit_fault(*readback, name@, 0) is None ==> 4 * (readback.coded_width
            * readback.coded_height) <= isize::MAX,
    ensures
        ({
            let bad = first_faulty(*readback, name@, 0, count as int);
            let width = readback.coded_width as usize;
            let height = readback.coded_height as usize;
            if bad < count {
                r matches Err(m) && error_is(
                    m,
                    (unit_fault(*readback, name@, bad)->0).0,
                    (unit_fault(*readback, name@, bad)->0).1,
                )
            } else {
                r matches Ok(list) && list@.len() == count && forall|i: int|
                    0 <= i < count ==> (#[trigger] list@[i])@ == nv12_argb(
                        sample_at(
                            readback.readback_sample@,
                            readback.readback_sample_stride,
                            i as usize,
                        ).take(nv12_total(width * height)),
                        width as nat,
                        height as nat,
                    )
            }
        }),
{
    let width: usize = readback.coded_width as usize;
    let height: usize = readback.coded_height as usize;
    let mut list: Vec<Vec<u8>> = Vec::new();
    let mut i: usize = 0;
    while i < count
        invariant
            i <= count,
            width == readback.coded_width as usize,
            height == readback.coded_height as usize,
            count > 0 && unit_fault(*readback, name@, 0) is None ==> 4 * (readback.coded_width
                * readback.coded_height) <= isize::MAX,
            i > 0 ==> unit_fault(*readback, name@, 0) is None,
            first_faulty(*readback, name@, 0, count as int) == first_faulty(
                *readback,
                name@,
                i as int,
                count as int,
            ),
            list@.len() == i,
            forall|k: int|
                0 <= k < i ==> (#[trigger] list@[k])@ == nv12_argb(
                    sample_at(
                        readback.readback_sample@,
                        readback.readback_sample_stride,
                        k as usize,
                    ).take(nv12_total(width * height)),
                    width as nat,
                    height as nat,
                ),
        decreases count - i,
    {
        let sample = hevc_probe_readback_sample_at(
            readback.readback_sample.as_slice(),
            readback.readback_sample_stride,
            i,
        )?;
        let argb = hevc_readback_to_argb_named(
            name,
            readback.output_format,
            sample,
            width,
            height,
        )?;
        list.push(argb);
        i = i + 1;
    }
    Ok(list)
}

/// The frames of a stream in display order, given the name of the format that was
/// read back.
pub fn build_hevc_frames_named(
    headers: &Vec<HevcAccessUnitHeader>,
    readback: &HevcReadback,
    format_name: &str,
    metadata_only: bool,
    next_pts_90k: i64,
    fps: i32,
) -> (r: Result<Vec<Frame>, BackendError>)
    requires
        gives_pixels(headers@, *readback, metadata_only) ==> 4 * (readback.coded_width
            * readback.coded_height) <= isize::MAX,
    ensures
        match stream_fault(headers@, *readback, metadata_only, format_name@) {
            Some((kind, e)) => r matches Err(m) && error_is(m, kind, e),
            None => r matches Ok(frames) && exists|items: Seq<(i32, Frame)>|
                #[trigger] are_unit_frames(items, headers@, *readback, metadata_only) && frames@
                    == displayed(items, next_pts_90k, pts_step(fps)),
        },
{
    if readback.submitted_access_units == 0 {
        return Err(
            unsupported_config(
                "Vulkan HEVC decode submit execution reported submitted_access_units=0",
            ),
        );
    }
    let count: usize = headers.len();
    let covered: usize = readback.submitted_access_units as usize;
    ensure_hevc_non_metadata_probe_coverage(
        metadata_only,
        count,
        covered,
        readback.readback_bytes,
        readback.readback_planes,
        readback.submitted_access_units,
    )?;
    let mut pixels: Vec<Vec<u8>> = Vec::new();
    if !metadata_only {
        if (readback.readback_sample_count as u64) < count as u64 {
            return Err(
                BackendError::UnsupportedConfig(
                    String::from_str(
                        "Vulkan HEVC non-metadata output readback sample count is too small: got ",
                    ).concat(
                        decimal_text(readback.readback_sample_count as u64).as_str(),
                    ).concat(", need at least ").concat(size_text(count).as_str()).concat(
                        "; readback_handoff=bytes:",
                    ).concat(size_text(readback.readback_bytes).as_str()).concat(
                        ", planes:",
                    ).concat(decimal_text(readback.readback_planes as u64).as_str()).concat(
                        ", sample_stride:",
                    ).concat(size_text(readback.readback_sample_stride).as_str()).concat(
                        ", submitted_access_units:",
                    ).concat(
                        decimal_text(readback.submitted_access_units as u64).as_str(),
                    ),
                ),
            );
        }
        proof {
            lemma_first_faulty(*readback, format_name@, 0, count as int);
        }
        pixels = collect_argb(readback, format_name, count)?;
    }
    let width: usize = readback.coded_width as usize;
    let height: usize = readback.coded_height as usize;
    let slots: usize = if readback.max_dpb_slots == 0 { 1 } else { readback.max_dpb_slots as usize };
    let mut items: Vec<(i32, Frame)> = Vec::new();
    let mut next_slot: usize = 0;
    let mut i: usize = 0;
    while i < count
        invariant
            i <= count,
            count == headers@.len(),
            covered == readback.submitted_access_units,
            width == readback.coded_width as usize,
            height == readback.coded_height as usize,
            slots == slot_count(*readback),
            slots > 0,
            i > 0 ==> next_slot == since_idr(headers@, i - 1) + 1,
            i == 0 ==> next_slot == 0,
            next_slot <= i,
            !metadata_only ==> pixels@.len() == count && forall|k: int|
                0 <= k < count ==> (#[trigger] pixels@[k])@ == nv12_argb(
                    sample_at(
                        readback.readback_sample@,
                        readback.readback_sample_stride,
                        k as usize,
                    ).take(nv12_total(width * height)),
                    width as nat,
                    height as nat,
                ),
            items@.len() == i,
            forall|k: int|
                0 <= k < i ==> (#[trigger] items@[k]).0 == headers@[k].poc_full && is_unit_frame(
                    items@[k].1,
                    headers@,
                    *readback,
                    metadata_only,
                    k,
                ),
        decreases count - i,
    {
        let header = headers[i];
        let idr: bool = header.nal_unit_type == 19 || header.nal_unit_type == 20;
        if idr {
            next_slot = 0;
        }
        assert(next_slot == since_idr(headers@, i as int));
        let slot: usize = next_slot % slots;
        next_slot = next_slot + 1;
        let mut frame = metadata_only_frame(width, height, None);
        frame.decode_info_flags = Some(
            build_hevc_metadata_decode_info_flags(
                slot,
                i < covered,
                readback.readback_non_zero,
            ),
        );
        if !metadata_only {
            frame.argb = Some(crate::bitstream::copy_bytes(pixels[i].as_slice()));
        }
        frame.force_keyframe = idr;
        items.push((header.poc_full, frame));
        i = i + 1;
    }
    let step: i64 = decode_pts_step(fps);
    let ghost all = items@;
    assert(are_unit_frames(all, headers@, *readback, metadata_only));
    Ok(sort_hevc_display_order_frames(items, next_pts_90k, step))
}

/// The frames of a stream in display order.
pub fn build_hevc_frames(
    headers: &Vec<HevcAccessUnitHeader>,
    readback: &HevcReadback,
    metadata_only: bool,
    next_pts_90k: i64,
    fps: i32,
) -> (r: Result<Vec<Frame>, BackendError>)
    requires
        gives_pixels(headers@, *readback, metadata_only) ==> 4 * (readback.coded_width
            * readback.coded_height) <= isize::MAX,
    ensures
        match stream_fault(
            headers@,
            *readback,
            metadata_only,
            format_name(readback.output_format),
        ) {
            Some((kind, e)) => r matches Err(m) && error_is(m, kind, e),
            None => r matches Ok(frames) && exists|items: Seq<(i32, Frame)>|
                #[trigger] are_unit_frames(items, headers@, *readback, metadata_only) && frames@
                    == displayed(items, next_pts_90k, pts_step(fps)),
        },
{
    let name = format_name_text(readback.output_format);
    build_hevc_frames_named(headers, readback, name.as_str(), metadata_only, next_pts_90k, fps)
}

} // verus!
