//! The decoder adapter: what is pending, what was decoded, and frames from raw images.

use super::time::{decode_pts_step, frame_pts, frame_time, pts_step, saturating_add};
use crate::bitstream::copy_bytes;
use crate::config::{BackendDecoderOptions, DecoderConfig, VulkanDecoderOptions};
use crate::error::{error_is, BackendError, BackendErrorKind};
use crate::frame::{DecodeSummary, Frame, Nv12FramePayload};
use crate::pixel::{
    chroma_in_bounds, law_nv12_rgb_size, nv12_rgb, nv12_to_rgb24, nv12_total, packed, Nv12Frame,
    PixelOutputLayout,
};
use crate::text::{decimal, size_text};
use crate::types::{Codec, DecodeOutputMode};
use vstd::prelude::*;
use vstd::slice::*;
use vstd::string::*;

verus! {

// ---------------------------------------------------------------------------
// Frames

/// A frame of a size at a time, without pixels.
pub open spec fn bare_frame(width: usize, height: usize, pts_90k: Option<i64>) -> Frame {
    Frame {
        width,
        height,
        pixel_format: None,
        pts_90k,
        decode_info_flags: None,
        color_primaries: None,
        transfer_function: None,
        ycbcr_matrix: None,
        argb: None,
        nv12: None,
        force_keyframe: false,
    }
}

pub fn metadata_only_frame(width: usize, height: usize, pts_90k: Option<i64>) -> (r: Frame)
    ensures
        r == bare_frame(width, height, pts_90k),
{
    Frame {
        width,
        height,
        pixel_format: None,
        pts_90k,
        decode_info_flags: None,
        color_primaries: None,
        transfer_function: None,
        ycbcr_matrix: None,
        argb: None,
        nv12: None,
        force_keyframe: false,
    }
}

/// RGB data as ARGB data.
pub fn argb_from_rgb(rgb: &Vec<u8>) -> (r: Vec<u8>)
    ensures
        r@ == packed(PixelOutputLayout::Argb8888, rgb@, rgb@.len() / 3),
{
    let count: usize = rgb.len() / 3;
    let mut out: Vec<u8> = Vec::new();
    let mut i: usize = 0;
    while i < count
        invariant
            i <= count,
            count == rgb.len() / 3,
            out@ == packed(PixelOutputLayout::Argb8888, rgb@, i as nat),
        decreases count - i,
    {
        out.push(255);
        out.push(rgb[3 * i]);
        out.push(rgb[3 * i + 1]);
        out.push(rgb[3 * i + 2]);
        i = i + 1;
        assert(out@ =~= packed(PixelOutputLayout::Argb8888, rgb@, i as nat));
    }
    out
}

/// A decoded NV12 image without padding.
#[derive(Debug, Clone)]
pub struct RawFrame {
    pub frame: Vec<u8>,
    pub width: u32,
    pub height: u32,
}

/// An NV12 image without padding, as ARGB data by BT.601 in the limited range.
pub open spec fn nv12_argb(data: Seq<u8>, width: nat, height: nat) -> Seq<u8> {
    packed(
        PixelOutputLayout::Argb8888,
        nv12_rgb(
            data,
            width as int,
            (width * height) as int,
            crate::pixel::bt601_limited(),
            width,
            height,
        ),
        width * height,
    )
}

/// Why an NV12 image without padding cannot be converted, if it cannot.
pub open spec fn raw_fault(data: Seq<u8>, width: nat, height: nat) -> Option<Seq<char>> {
    let luma = (width * height) as int;
    if width == 0 || height == 0 {
        Some("nv12 frame dimensions must be positive"@)
    } else if luma > usize::MAX {
        Some("nv12 luma size overflow"@)
    } else if nv12_total(luma) > usize::MAX {
        Some("nv12 total size overflow"@)
    } else if data.len() < nv12_total(luma) {
        Some("nv12 data is smaller than expected"@)
    } else {
        None
    }
}

/// An image that can be converted is not too large and holds all its chroma samples.
pub open spec fn raw_convertible(data: Seq<u8>, width: nat, height: nat) -> bool {
    raw_fault(data, width, height) is None ==> 4 * (width * height) <= isize::MAX
        && chroma_in_bounds(
        data.len(),
        width as int,
        (width * height) as int,
        width as int,
        height as int,
    )
}

pub(crate) fn nv12_to_argb(data: Vec<u8>, width: usize, height: usize) -> (r: Result<Vec<u8>, BackendError>)
    requires
        raw_convertible(data@, width as nat, height as nat),
    ensures
        match raw_fault(data@, width as nat, height as nat) {
            Some(e) => r matches Err(m) && error_is(m, BackendErrorKind::InvalidInput, e),
            None => r matches Ok(argb) && argb@ == nv12_argb(data@, width as nat, height as nat),
        },
{
    let frame = Nv12Frame { width, height, pitch: width, pts_90k: None, data };
    let rgb = nv12_to_rgb24(&frame)?;
    proof {
        law_nv12_rgb_size(
            data@,
            width as int,
            width * height,
            crate::pixel::bt601_limited(),
            width as nat,
            height as nat,
        );
    }
    Ok(argb_from_rgb(&rgb.data))
}

pub fn raw_nv12_to_argb(raw: &RawFrame) -> (r: Result<Vec<u8>, BackendError>)
    requires
        raw_convertible(raw.frame@, raw.width as nat, raw.height as nat),
    ensures
        match raw_fault(raw.frame@, raw.width as nat, raw.height as nat) {
            Some(e) => r matches Err(m) && error_is(m, BackendErrorKind::InvalidInput, e),
            None => r matches Ok(argb) && argb@ == nv12_argb(
                raw.frame@,
                raw.width as nat,
                raw.height as nat,
            ),
        },
{
    nv12_to_argb(
        copy_bytes(raw.frame.as_slice()),
        raw.width as usize,
        raw.height as usize,
    )
}

/// Frame `i` of a decoded list.
pub open spec fn is_backend_frame(
    frame: Frame,
    raw: RawFrame,
    metadata: bool,
    start: i64,
    fps: i32,
    i: int,
) -> bool {
    let plain = bare_frame(
        raw.width as usize,
        raw.height as usize,
        Some(frame_time(start, i, pts_step(fps))),
    );
    if metadata {
        frame == plain
    } else {
        frame == (Frame { argb: frame.argb, ..plain }) && (frame.argb matches Some(argb) && argb@
            == nv12_argb(raw.frame@, raw.width as nat, raw.height as nat))
    }
}

/// The position of the first image that cannot be converted, or the number of images.
pub open spec fn first_bad(decoded: Seq<RawFrame>, from: int) -> int
    decreases decoded.len() - from,
{
    if from >= decoded.len() {
        decoded.len() as int
    } else if raw_fault(
        decoded[from].frame@,
        decoded[from].width as nat,
        decoded[from].height as nat,
    ) is Some {
        from
    } else {
        first_bad(decoded, from + 1)
    }
}

/// Decoded images as frames, with times that follow each other.
pub fn build_backend_frames(
    decoded: &Vec<RawFrame>,
    output_mode: DecodeOutputMode,
    start_pts_90k: i64,
    fps: i32,
) -> (r: Result<Vec<Frame>, BackendError>)
    requires
        output_mode != DecodeOutputMode::Metadata ==> forall|i: int|
            0 <= i < decoded@.len() ==> raw_convertible(
                (#[trigger] decoded@[i]).frame@,
                decoded@[i].width as nat,
                decoded@[i].height as nat,
            ),
        (decoded@.len() - 1) * pts_step(fps) <= i64::MAX,
    ensures
        ({
            let metadata = output_mode == DecodeOutputMode::Metadata;
            let bad = first_bad(decoded@, 0);
            if metadata || bad >= decoded@.len() {
                r matches Ok(frames) && frames@.len() == decoded@.len() && forall|i: int|
                    0 <= i < decoded@.len() ==> is_backend_frame(
                        #[trigger] frames@[i],
                        decoded@[i],
                        metadata,
                        start_pts_90k,
                        fps,
                        i,
                    )
            } else {
                r matches Err(m) && error_is(
                    m,
                    BackendErrorKind::InvalidInput,
                    raw_fault(
                        decoded@[bad].frame@,
                        decoded@[bad].width as nat,
                        decoded@[bad].height as nat,
                    )->0,
                )
            }
        }),
{
    let metadata: bool = match output_mode {
        DecodeOutputMode::Metadata => true,
        _ => false,
    };
    let step: i64 = decode_pts_step(fps);
    let mut frames: Vec<Frame> = Vec::new();
    let mut i: usize = 0;
    while i < decoded.len()
        invariant
            i <= decoded.len(),
            metadata == (output_mode == DecodeOutputMode::Metadata),
            step == pts_step(fps),
            0 <= step,
            !metadata ==> forall|k: int|
                0 <= k < decoded@.len() ==> raw_convertible(
                    (#[trigger] decoded@[k]).frame@,
                    decoded@[k].width as nat,
                    decoded@[k].height as nat,
                ),
            !metadata ==> first_bad(decoded@, 0) == first_bad(decoded@, i as int),
            frames@.len() == i,
            forall|k: int|
                0 <= k < i ==> is_backend_frame(
                    #[trigger] frames@[k],
                    decoded@[k],
                    metadata,
                    start_pts_90k,
                    fps,
                    k,
                ),
        decreases decoded.len() - i,
    {
        let raw = &decoded[i];
        let pts: i64 = frame_pts(start_pts_90k, i, step);
        let mut frame = metadata_only_frame(raw.width as usize, raw.height as usize, Some(pts));
        if !metadata {
            assert(raw_convertible(decoded@[i as int].frame@, raw.width as nat, raw.height as nat));
            let argb = raw_nv12_to_argb(raw)?;
            frame.argb = Some(argb);
        }
        frames.push(frame);
        i = i + 1;
    }
    Ok(frames)
}

/// Decoded images of which only the sizes are known as frames, with times that follow each other.
pub fn build_metadata_frames(sizes: &Vec<(u32, u32)>, start_pts_90k: i64, fps: i32) -> (r: Vec<
    Frame,
>)
    ensures
        r@ == Seq::new(
            sizes@.len(),
            |i: int|
                bare_frame(
                    sizes@[i].0 as usize,
                    sizes@[i].1 as usize,
                    Some(frame_time(start_pts_90k, i, pts_step(fps))),
                ),
        ),
{
    let step: i64 = decode_pts_step(fps);
    let mut frames: Vec<Frame> = Vec::new();
    let mut i: usize = 0;
    while i < sizes.len()
        invariant
            i <= sizes.len(),
            step == pts_step(fps),
            0 <= step,
            frames@.len() == i,
            forall|k: int|
                0 <= k < i ==> #[trigger] frames@[k] == bare_frame(
                    sizes@[k].0 as usize,
                    sizes@[k].1 as usize,
                    Some(frame_time(start_pts_90k, k, pts_step(fps))),
                ),
        decreases sizes.len() - i,
    {
        let (width, height): (u32, u32) = sizes[i];
        let pts: i64 = frame_pts(start_pts_90k, i, step);
        frames.push(metadata_only_frame(width as usize, height as usize, Some(pts)));
        i = i + 1;
    }
    assert(frames@ =~= Seq::new(
        sizes@.len(),
        |i: int|
            bare_frame(
                sizes@[i].0 as usize,
                sizes@[i].1 as usize,
                Some(frame_time(start_pts_90k, i, pts_step(fps))),
            ),
    ));
    frames
}

// ---------------------------------------------------------------------------
// AV1 readback

/// An AV1 picture as it was read back.
#[derive(Debug, Clone)]
pub struct Av1Readback {
    pub coded_width: u32,
    pub coded_height: u32,
    pub readback_non_zero: bool,
    pub data: Vec<u8>,
}

/// The pixel format code of NV12.
pub const PIXEL_FORMAT_NV12: u32 = 0x3231_564e;

/// The message when a picture that was read back has an odd side.
pub open spec fn odd_extent_message(codec: Seq<char>, width: usize, height: usize) -> Seq<char> {
    "Vulkan "@ + codec + " non-metadata output currently requires even coded extent, got "@
        + decimal(width as nat) + "x"@ + decimal(height as nat)
}

pub open spec fn short_sample_message(codec: Seq<char>, actual: nat, needed: nat) -> Seq<char> {
    "Vulkan "@ + codec + " readback sample too short for NV12 payload: got "@ + decimal(actual)
        + ", need at least "@ + decimal(needed)
}

/// Why a picture that was read back has no NV12 payload, if it has none.
pub open spec fn readback_fault(codec: Seq<char>, len: nat, width: usize, height: usize) -> Option<
    Seq<char>,
> {
    let needed = nv12_total(width * height);
    if width % 2 != 0 || height % 2 != 0 {
        Some(odd_extent_message(codec, width, height))
    } else if needed > usize::MAX {
        Some(
            "Vulkan "@ + codec + " readback size overflow while preparing NV12 payload"@,
        )
    } else if len < needed {
        Some(short_sample_message(codec, len, needed as nat))
    } else {
        None
    }
}

/// The NV12 payload at the start of what was read back.
pub fn nv12_payload_of(codec: &str, sample: &[u8], width: usize, height: usize) -> (r: Result<
    Vec<u8>,
    BackendError,
>)
    ensures
        match readback_fault(codec@, sample@.len(), width, height) {
            Some(e) => r matches Err(m) && error_is(m, BackendErrorKind::UnsupportedConfig, e),
            None => r matches Ok(data) && data@ == sample@.take(nv12_total(width * height)),
        },
{
    assert(0 <= width * height) by (nonlinear_arith);
    let start = String::from_str("Vulkan ").concat(codec);
    if width % 2 != 0 || height % 2 != 0 {
        return Err(
            BackendError::UnsupportedConfig(
                start.concat(
                    " non-metadata output currently requires even coded extent, got ",
                ).concat(size_text(width).as_str()).concat("x").concat(size_text(height).as_str()),
            ),
        );
    }
    let luma: Option<usize> = width.checked_mul(height);
    let total: Option<usize> = match luma {
        Some(y) => y.checked_add(y / 2),
        None => None,
    };
    match total {
        None => Err(
            BackendError::UnsupportedConfig(
                start.concat(" readback size overflow while preparing NV12 payload"),
            ),
        ),
        Some(needed) => {
            if sample.len() < needed {
                return Err(
                    BackendError::UnsupportedConfig(
                        start.concat(" readback sample too short for NV12 payload: got ").concat(
                            size_text(sample.len()).as_str(),
                        ).concat(", need at least ").concat(size_text(needed).as_str()),
                    ),
                );
            }
            let head = slice_subrange(sample, 0, needed);
            assert(head@ =~= sample@.take(needed as int));
            Ok(copy_bytes(head))
        },
    }
}

pub fn av1_readback_to_nv12_payload(readback_sample: &[u8], width: usize, height: usize) -> (r:
    Result<Nv12FramePayload, BackendError>)
    ensures
        match readback_fault("AV1"@, readback_sample@.len(), width, height) {
            Some(e) => r matches Err(m) && error_is(m, BackendErrorKind::UnsupportedConfig, e),
            None => r matches Ok(payload) && payload.pitch == width && payload.data@
                == readback_sample@.take(nv12_total(width * height)),
        },
{
    let data = nv12_payload_of("AV1", readback_sample, width, height)?;
    Ok(Nv12FramePayload { pitch: width, data })
}

/// Frame `i` of an AV1 stream of a size.
pub open spec fn is_av1_frame(
    frame: Frame,
    readback: Av1Readback,
    width: usize,
    height: usize,
    metadata: bool,
    start: i64,
    fps: i32,
    i: int,
) -> bool {
    let plain = Frame {
        decode_info_flags: Some(if readback.readback_non_zero { 1u32 } else { 0u32 }),
        ..bare_frame(width, height, Some(frame_time(start, i, pts_step(fps))))
    };
    if metadata {
        frame == plain
    } else {
        frame == (Frame {
            pixel_format: Some(0x3231_564eu32),
            nv12: frame.nv12,
            force_keyframe: true,
            ..plain
        }) && (frame.nv12 matches Some(payload) && payload.pitch == width && payload.data@
            == readback.data@.take(nv12_total(width * height)))
    }
}

/// The position of the first picture that has no payload, or `end`.
pub open spec fn first_unreadable(
    readbacks: Seq<Av1Readback>,
    width: usize,
    height: usize,
    from: int,
    end: int,
) -> int
    decreases end - from,
{
    if from >= end {
        end
    } else if readback_fault("AV1"@, readbacks[from].data@.len(), width, height) is Some {
        from
    } else {
        first_unreadable(readbacks, width, height, from + 1, end)
    }
}

/// The frames of an AV1 stream from its pictures as they were read back. All have
/// the size of the first.
pub fn build_av1_frames(
    readbacks: &Vec<Av1Readback>,
    decode_count: usize,
    output_mode: DecodeOutputMode,
    next_pts_90k: i64,
    fps: i32,
    blocker_message: &str,
) -> (r: Result<Vec<Frame>, BackendError>)
    ensures
        ({
            let metadata = output_mode == DecodeOutputMode::Metadata;
            let n = decode_count as int;
            if readbacks@.len() < n {
                r matches Err(m) && error_is(
                    m,
                    BackendErrorKind::UnsupportedConfig,
                    "Vulkan AV1 decode readback frame count is too small: got "@ + decimal(
                        readbacks@.len(),
                    ) + ", need "@ + decimal(n as nat) + "; "@ + blocker_message@,
                )
            } else if readbacks@.len() == 0 {
                r matches Ok(frames) && frames@.len() == 0
            } else {
                let width = readbacks@[0].coded_width as usize;
                let height = readbacks@[0].coded_height as usize;
                let bad = first_unreadable(readbacks@, width, height, 0, n);
                if metadata || bad >= n {
                    r matches Ok(frames) && frames@.len() == n && forall|i: int|
                        0 <= i < n ==> is_av1_frame(
                            #[trigger] frames@[i],
                            readbacks@[i],
                            width,
                            height,
                            metadata,
                            next_pts_90k,
                            fps,
                            i,
                        )
                } else {
                    r matches Err(m) && error_is(
                        m,
                        BackendErrorKind::UnsupportedConfig,
                        readback_fault("AV1"@, readbacks@[bad].data@.len(), width, height)->0,
                    )
                }
            }
        }),
{
    if readbacks.len() < decode_count {
        return Err(
            BackendError::UnsupportedConfig(
                String::from_str(
                    "Vulkan AV1 decode readback frame count is too small: got ",
                ).concat(size_text(readbacks.len()).as_str()).concat(", need ").concat(
                    size_text(decode_count).as_str(),
                ).concat("; ").concat(blocker_message),
            ),
        );
    }
    let mut frames: Vec<Frame> = Vec::new();
    if readbacks.len() == 0 {
        return Ok(frames);
    }
    let width: usize = readbacks[0].coded_width as usize;
    let height: usize = readbacks[0].coded_height as usize;
    let metadata: bool = match output_mode {
        DecodeOutputMode::Metadata => true,
        _ => false,
    };
    let step: i64 = decode_pts_step(fps);
    let mut i: usize = 0;
    while i < decode_count
        invariant
            i <= decode_count <= readbacks@.len(),
            readbacks@.len() > 0,
            width == readbacks@[0].coded_width as usize,
            height == readbacks@[0].coded_height as usize,
            metadata == (output_mode == DecodeOutputMode::Metadata),
            step == pts_step(fps),
            0 <= step,
            !metadata ==> first_unreadable(readbacks@, width, height, 0, decode_count as int)
                == first_unreadable(readbacks@, width, height, i as int, decode_count as int),
            frames@.len() == i,
            forall|k: int|
                0 <= k < i ==> is_av1_frame(
                    #[trigger] frames@[k],
                    readbacks@[k],
                    width,
                    height,
                    metadata,
                    next_pts_90k,
                    fps,
                    k,
                ),
        decreases decode_count - i,
    {
        let readback = &readbacks[i];
        let pts: i64 = frame_pts(next_pts_90k, i, step);
        let mut frame = metadata_only_frame(width, height, Some(pts));
        frame.decode_info_flags = Some(if readback.readback_non_zero { 1 } else { 0 });
        if !metadata {
            let payload = av1_readback_to_nv12_payload(
                readback.data.as_slice(),
                width,
                height,
            )?;
            frame.pixel_format = Some(PIXEL_FORMAT_NV12);
            frame.nv12 = Some(payload);
            frame.force_keyframe = true;
        }
        frames.push(frame);
        i = i + 1;
    }
    Ok(frames)
}

// ---------------------------------------------------------------------------
// The adapter

/// How pending data are decoded.
#[derive(Debug, Clone, Copy, PartialEq, Eq, Structural)]
pub enum DecodeRoute {
    Hevc,
    Av1,
    H264Metadata,
    H264Frames,
}

/// A decoder without its device: settings, data that wait, the time of the next frame
/// and what was decoded so far.
#[derive(Debug)]
pub struct VulkanDecoderAdapter {
    config: DecoderConfig,
    options: VulkanDecoderOptions,
    pending_bitstream: Vec<u8>,
    next_pts_90k: i64,
    last_summary: DecodeSummary,
}

/// A summary that takes in decoded frames.
pub open spec fn summary_after(summary: DecodeSummary, frames: Seq<Frame>) -> DecodeSummary {
    let count = summary.decoded_frames + frames.len();
    let decoded_frames = if count > usize::MAX { usize::MAX } else { count as usize };
    if frames.len() == 0 {
        DecodeSummary { decoded_frames, ..summary }
    } else {
        DecodeSummary {
            decoded_frames,
            width: Some(frames.last().width),
            height: Some(frames.last().height),
            pixel_format: frames.last().pixel_format,
        }
    }
}

impl VulkanDecoderAdapter {
    pub closed spec fn config(self) -> DecoderConfig {
        self.config
    }

    pub closed spec fn options(self) -> VulkanDecoderOptions {
        self.options
    }

    pub closed spec fn pending(self) -> Seq<u8> {
        self.pending_bitstream@
    }

    pub closed spec fn next_pts(self) -> i64 {
        self.next_pts_90k
    }

    pub closed spec fn summary(self) -> DecodeSummary {
        self.last_summary
    }

    /// What waited is handed out and nothing else changes.
    pub open spec fn handed_out(self, after: Self, data: Seq<u8>) -> bool {
        &&& after.config() == self.config()
        &&& after.options() == self.options()
        &&& after.summary() == self.summary()
        &&& after.next_pts() == self.next_pts()
        &&& after.pending().len() == 0
        &&& data == self.pending()
    }

    /// The time moves on and the frames are counted, or the data wait again.
    pub open spec fn took_note(
        self,
        after: Self,
        data: Seq<u8>,
        result: Result<Vec<Frame>, BackendError>,
    ) -> bool {
        &&& after.config() == self.config()
        &&& after.options() == self.options()
        &&& match result {
            Ok(frames) => after.pending().len() == 0 && after.next_pts() == frame_time(
                self.next_pts(),
                frames@.len() as int,
                pts_step(self.config().fps),
            ) && after.summary() == summary_after(self.summary(), frames@),
            Err(_) => after.pending() == data && after.next_pts() == self.next_pts()
                && after.summary() == self.summary(),
        }
    }

    pub fn new(config: DecoderConfig) -> (r: Self)
        ensures
            r.config() == config,
            match config.backend_options {
                BackendDecoderOptions::Vulkan(options) => r.options() == options,
                _ => r.options() == (VulkanDecoderOptions {
                    allow_software_fallback: None,
                    adapter_index: None,
                }),
            },
            r.pending().len() == 0,
            r.next_pts() == 0,
            r.summary() == (DecodeSummary {
                decoded_frames: 0,
                width: None,
                height: None,
                pixel_format: None,
            }),
    {
        let options = match &config.backend_options {
            BackendDecoderOptions::Vulkan(options) => VulkanDecoderOptions {
                allow_software_fallback: options.allow_software_fallback,
                adapter_index: options.adapter_index,
            },
            _ => VulkanDecoderOptions { allow_software_fallback: None, adapter_index: None },
        };
        VulkanDecoderAdapter {
            config,
            options,
            pending_bitstream: Vec::new(),
            next_pts_90k: 0,
            last_summary: DecodeSummary {
                decoded_frames: 0,
                width: None,
                height: None,
                pixel_format: None,
            },
        }
    }

    /// How pending data are decoded.
    pub fn route(&self) -> (r: DecodeRoute)
        ensures
            r == (match self.config().codec {
                Codec::Hevc => DecodeRoute::Hevc,
                Codec::Av1 => DecodeRoute::Av1,
                Codec::H264 => if self.config().output_mode == DecodeOutputMode::Metadata {
                    DecodeRoute::H264Metadata
                } else {
                    DecodeRoute::H264Frames
                },
            }),
    {
        match self.config.codec {
            Codec::Hevc => DecodeRoute::Hevc,
            Codec::Av1 => DecodeRoute::Av1,
            Codec::H264 => match self.config.output_mode {
                DecodeOutputMode::Metadata => DecodeRoute::H264Metadata,
                _ => DecodeRoute::H264Frames,
            },
        }
    }

    pub fn adapter_index(&self) -> (r: Option<usize>)
        ensures
            r == self.options().adapter_index,
    {
        self.options.adapter_index
    }

    pub fn output_mode(&self) -> (r: DecodeOutputMode)
        ensures
            r == self.config().output_mode,
    {
        self.config.output_mode
    }

    pub fn fps(&self) -> (r: i32)
        ensures
            r == self.config().fps,
    {
        self.config.fps
    }

    pub fn next_pts_90k(&self) -> (r: i64)
        ensures
            r == self.next_pts(),
    {
        self.next_pts_90k
    }

    /// An error of setting up a device. Where software would do, the error says that
    /// there is none.
    pub fn setup_error(&self, error: BackendError) -> (r: BackendError)
        ensures
            !self.config().require_hardware && (self.options().allow_software_fallback
                != Some(false)) ==> error_is(
                r,
                BackendErrorKind::UnsupportedConfig,
                error.text()
                    + "; software fallback is not available in direct Vulkan backend"@,
            ),
            self.config().require_hardware || self.options().allow_software_fallback == Some(
                false,
            ) ==> r == error,
    {
        let fallback: bool = match self.options.allow_software_fallback {
            Some(allowed) => allowed,
            None => true,
        };
        if !self.config.require_hardware && fallback {
            BackendError::UnsupportedConfig(
                error.to_string().concat(
                    "; software fallback is not available in direct Vulkan backend",
                ),
            )
        } else {
            error
        }
    }

    /// Takes data. The time counts where nothing waits yet.
    pub fn push_bitstream_chunk(&mut self, chunk: &[u8], pts_90k: Option<i64>)
        ensures
            final(self).config() == old(self).config(),
            final(self).options() == old(self).options(),
            final(self).summary() == old(self).summary(),
            final(self).pending() == old(self).pending() + chunk@,
            final(self).next_pts() == (match pts_90k {
                Some(pts) => if old(self).pending().len() == 0 { pts } else { old(self).next_pts() },
                None => old(self).next_pts(),
            }),
    {
        if self.pending_bitstream.len() == 0 {
            if let Some(pts) = pts_90k {
                self.next_pts_90k = pts;
            }
        }
        self.pending_bitstream.extend_from_slice(chunk);
        assert(self.pending_bitstream@ =~= old(self).pending() + chunk@);
    }

    /// Hands out what waits, to be decoded. There is nothing to do where nothing waits.
    pub fn take_pending(&mut self) -> (r: Option<Vec<u8>>)
        ensures
            match r {
                None => old(self).pending().len() == 0 && old(self).handed_out(
                    *final(self),
                    Seq::empty(),
                ),
                Some(data) => data@.len() > 0 && old(self).handed_out(*final(self), data@),
            },
    {
        if self.pending_bitstream.len() == 0 {
            assert(self.pending_bitstream@ =~= Seq::empty());
            return None;
        }
        let mut taken: Vec<u8> = Vec::new();
        taken.append(&mut self.pending_bitstream);
        assert(taken@ =~= old(self).pending());
        Some(taken)
    }

    fn apply_decoded_summary(&mut self, decoded: &Vec<Frame>)
        ensures
            final(self).config() == old(self).config(),
            final(self).options() == old(self).options(),
            final(self).pending() == old(self).pending(),
            final(self).next_pts() == old(self).next_pts(),
            final(self).summary() == summary_after(old(self).summary(), decoded@),
    {
        self.last_summary.decoded_frames = self.last_summary.decoded_frames.saturating_add(
            decoded.len(),
        );
        if decoded.len() > 0 {
            let last = &decoded[decoded.len() - 1];
            self.last_summary.width = Some(last.width);
            self.last_summary.height = Some(last.height);
            self.last_summary.pixel_format = last.pixel_format;
        }
    }

    /// Takes note of how decoding what was handed out went. After a failure the data
    /// wait again.
    pub fn finish_flush(&mut self, taken: Vec<u8>, result: Result<Vec<Frame>, BackendError>) -> (r:
        Result<Vec<Frame>, BackendError>)
        requires
            old(self).pending().len() == 0,
        ensures
            r == result,
            old(self).took_note(*final(self), taken@, result),
    {
        match result {
            Ok(frames) => {
                let step: i64 = decode_pts_step(self.config.fps);
                self.next_pts_90k = frame_pts(self.next_pts_90k, frames.len(), step);
                self.apply_decoded_summary(&frames);
                Ok(frames)
            },
            Err(e) => {
                self.pending_bitstream = taken;
                Err(e)
            },
        }
    }

    pub fn decode_summary(&self) -> (r: DecodeSummary)
        ensures
            r == self.summary(),
    {
        self.last_summary
    }
}

/// A decoder that fails to decode is as it was before: the same data wait, and time
/// and summary have not moved.
pub proof fn law_failed_decode_changes_nothing(
    before: VulkanDecoderAdapter,
    between: VulkanDecoderAdapter,
    after: VulkanDecoderAdapter,
    data: Seq<u8>,
    result: Result<Vec<Frame>, BackendError>,
)
    requires
        before.handed_out(between, data),
        between.took_note(after, data, result),
        result is Err,
    ensures
        after.config() == before.config(),
        after.options() == before.options(),
        after.pending() == before.pending(),
        after.next_pts() == before.next_pts(),
        after.summary() == before.summary(),
{
}

/// A decoder that decodes has nothing left that waits, and its time has moved by one
/// step for each frame.
pub proof fn law_decode_empties_and_advances(
    before: VulkanDecoderAdapter,
    between: VulkanDecoderAdapter,
    after: VulkanDecoderAdapter,
    data: Seq<u8>,
    result: Result<Vec<Frame>, BackendError>,
)
    requires
        before.handed_out(between, data),
        between.took_note(after, data, result),
        result is Ok,
    ensures
        after.pending().len() == 0,
        after.next_pts() == frame_time(
            before.next_pts(),
            result->Ok_0@.len() as int,
            pts_step(before.config().fps),
        ),
        after.next_pts() >= before.next_pts(),
        after.summary() == summary_after(before.summary(), result->Ok_0@),
{
    if before.config().fps > 0 {
        vstd::arithmetic::div_mod::lemma_div_pos_is_pos(90_000, before.config().fps as int);
        vstd::arithmetic::div_mod::lemma_div_is_ordered_by_denominator(
            90_000,
            1,
            before.config().fps as int,
        );
    }
    super::time::law_frame_times_do_not_fall(
        before.next_pts(),
        0,
        result->Ok_0@.len() as int,
        pts_step(before.config().fps),
    );
}

} // verus!
