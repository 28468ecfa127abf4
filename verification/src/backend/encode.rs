//! The encoder adapter: frames that wait and the packets that come of them.

use super::time::{i64_to_u64, u64_to_i64};
use crate::bitstream::copy_bytes;
use crate::config::{BackendEncoderOptions, VulkanEncoderOptions};
use crate::error::{error_is, invalid_input, BackendError, BackendErrorKind};
use crate::frame::{EncodedPacket, Frame};
use crate::text::{decimal, size_text};
use crate::types::Codec;
use vstd::prelude::*;
use vstd::string::*;

verus! {

/// An encoder without its device: settings, frames that wait and their size.
#[derive(Debug)]
pub struct VulkanEncoderAdapter {
    codec: Codec,
    fps: i32,
    require_hardware: bool,
    options: VulkanEncoderOptions,
    pending_frames: Vec<Frame>,
    width: Option<usize>,
    height: Option<usize>,
}

/// Where the pixels of a frame come from.
#[derive(Debug)]
pub enum FramePixels {
    /// NV12 data that can be used as they are.
    Nv12(Vec<u8>),
    /// ARGB data that have to be converted.
    Argb(Vec<u8>),
}

/// A packet as an encoder gives it.
#[derive(Debug, Clone)]
pub struct EncodedFrame {
    pub data: Vec<u8>,
    pub pts: Option<u64>,
    pub is_keyframe: bool,
}

pub open spec fn mixed_dimensions(
    width: usize,
    height: usize,
    frame_width: usize,
    frame_height: usize,
) -> Seq<char> {
    "mixed frame dimensions are unsupported: expected "@ + decimal(width as nat) + "x"@ + decimal(
        height as nat,
    ) + ", got "@ + decimal(frame_width as nat) + "x"@ + decimal(frame_height as nat)
}

/// Checks that a frame has the size of the stream.
pub fn check_frame_dimensions(frame: &Frame, width: usize, height: usize) -> (r: Result<
    (),
    BackendError,
>)
    ensures
        r is Ok <==> frame.width == width && frame.height == height,
        r matches Err(m) ==> error_is(
            m,
            BackendErrorKind::InvalidInput,
            mixed_dimensions(width, height, frame.width, frame.height),
        ),
{
    if frame.width != width || frame.height != height {
        return Err(
            BackendError::InvalidInput(
                String::from_str("mixed frame dimensions are unsupported: expected ").concat(
                    size_text(width).as_str(),
                ).concat("x").concat(size_text(height).as_str()).concat(", got ").concat(
                    size_text(frame.width).as_str(),
                ).concat("x").concat(size_text(frame.height).as_str()),
            ),
        );
    }
    Ok(())
}

/// The size of a frame as a device takes it, or why it does not.
pub open spec fn device_extent(width: usize, height: usize) -> Result<(u32, u32), Seq<char>> {
    if width > u32::MAX {
        Err("frame width does not fit in u32"@)
    } else if height > u32::MAX {
        Err("frame height does not fit in u32"@)
    } else {
        Ok((width as u32, height as u32))
    }
}

pub fn frame_extent(width: usize, height: usize) -> (r: Result<(u32, u32), BackendError>)
    ensures
        match device_extent(width, height) {
            Ok(extent) => r matches Ok(e) && e == extent,
            Err(e) => r matches Err(m) && error_is(m, BackendErrorKind::InvalidInput, e),
        },
{
    if width as u64 > 0xffff_ffff {
        return Err(invalid_input("frame width does not fit in u32"));
    }
    if height as u64 > 0xffff_ffff {
        return Err(invalid_input("frame height does not fit in u32"));
    }
    Ok((width as u32, height as u32))
}

/// The size of a stream as an encoder takes it: neither side is zero.
pub fn encoder_extent(width: usize, height: usize) -> (r: Result<(u32, u32), BackendError>)
    ensures
        match device_extent(width, height) {
            Err(e) => r matches Err(m) && error_is(m, BackendErrorKind::InvalidInput, e),
            Ok(extent) => if width == 0 {
                r matches Err(m) && error_is(
                    m,
                    BackendErrorKind::InvalidInput,
                    "frame width must be > 0"@,
                )
            } else if height == 0 {
                r matches Err(m) && error_is(
                    m,
                    BackendErrorKind::InvalidInput,
                    "frame height must be > 0"@,
                )
            } else {
                r matches Ok(e) && e == extent
            },
        },
{
    let extent = frame_extent(width, height)?;
    if width == 0 {
        return Err(invalid_input("frame width must be > 0"));
    }
    if height == 0 {
        return Err(invalid_input("frame height must be > 0"));
    }
    Ok(extent)
}

/// The frame rate that an encoder aims at.
pub fn target_frame_rate(fps: i32) -> (r: u32)
    ensures
        r == (if fps < 1 { 1u32 } else { fps as u32 }),
{
    if fps < 1 { 1 } else { fps as u32 }
}

/// Where the pixels of a frame come from. NV12 data count only where raw input is
/// switched on.
pub fn frame_pixels(frame: &Frame, width: usize, height: usize, raw_inputs: bool) -> (r: Result<
    FramePixels,
    BackendError,
>)
    ensures
        match (raw_inputs, frame.nv12) {
            (true, Some(nv12)) => if nv12.pitch < width {
                r matches Err(m) && error_is(
                    m,
                    BackendErrorKind::InvalidInput,
                    "NV12 pitch must be >= frame width"@,
                )
            } else {
                match device_extent(width, height) {
                    Err(e) => r matches Err(m) && error_is(m, BackendErrorKind::InvalidInput, e),
                    Ok(_) => r matches Ok(FramePixels::Nv12(data)) && data@ == nv12.data@,
                }
            },
            _ => match frame.argb {
                Some(argb) => r matches Ok(FramePixels::Argb(data)) && data@ == argb@,
                None => r matches Err(m) && error_is(
                    m,
                    BackendErrorKind::InvalidInput,
                    "Vulkan encode requires ARGB input payload"@,
                ),
            },
        },
{
    if raw_inputs {
        if let Some(nv12) = &frame.nv12 {
            if nv12.pitch < width {
                return Err(invalid_input("NV12 pitch must be >= frame width"));
            }
            let _extent = frame_extent(width, height)?;
            return Ok(FramePixels::Nv12(copy_bytes(nv12.data.as_slice())));
        }
    }
    match &frame.argb {
        Some(argb) => Ok(FramePixels::Argb(copy_bytes(argb.as_slice()))),
        None => Err(invalid_input("Vulkan encode requires ARGB input payload")),
    }
}

/// Checks converted pixels: their rows follow each other without gaps, and a device
/// takes the size.
pub fn check_converted_pixels(pitch: usize, width: usize, height: usize) -> (r: Result<
    (u32, u32),
    BackendError,
>)
    ensures
        if pitch != width {
            r matches Err(m) && error_is(
                m,
                BackendErrorKind::InvalidInput,
                "NV12 pitch mismatch: expected "@ + decimal(width as nat) + ", got "@ + decimal(
                    pitch as nat,
                ),
            )
        } else {
            match device_extent(width, height) {
                Ok(extent) => r matches Ok(e) && e == extent,
                Err(e) => r matches Err(m) && error_is(m, BackendErrorKind::InvalidInput, e),
            }
        },
{
    if pitch != width {
        return Err(
            BackendError::InvalidInput(
                String::from_str("NV12 pitch mismatch: expected ").concat(
                    size_text(width).as_str(),
                ).concat(", got ").concat(size_text(pitch).as_str()),
            ),
        );
    }
    frame_extent(width, height)
}

/// The time that a frame is given to an encoder with.
pub fn encoder_pts(pts_90k: Option<i64>) -> (r: Option<u64>)
    ensures
        r == (match pts_90k {
            Some(pts) => if pts >= 0 { Some(pts as u64) } else { None },
            None => None,
        }),
{
    match pts_90k {
        Some(pts) => i64_to_u64(pts),
        None => None,
    }
}

/// A packet of what an encoder gave.
pub open spec fn is_packet_of(packet: EncodedPacket, codec: Codec, encoded: EncodedFrame) -> bool {
    packet.codec == codec && packet.data@ == encoded.data@ && packet.is_keyframe
        == encoded.is_keyframe && packet.pts_90k == (match encoded.pts {
        Some(pts) => if pts <= i64::MAX { Some(pts as i64) } else { None },
        None => None,
    })
}

/// The positions of what is not empty, in order.
pub open spec fn filled(encoded: Seq<EncodedFrame>) -> Seq<int>
    decreases encoded.len(),
{
    if encoded.len() == 0 {
        Seq::empty()
    } else if encoded.last().data@.len() == 0 {
        filled(encoded.drop_last())
    } else {
        filled(encoded.drop_last()).push(encoded.len() - 1)
    }
}

/// The packets of what an encoder gave. Nothing comes of empty data, and packets are
/// owed.
pub fn collect_packets(codec: Codec, encoded: &Vec<EncodedFrame>) -> (r: Result<
    Vec<EncodedPacket>,
    BackendError,
>)
    ensures
        if filled(encoded@).len() == 0 {
            r matches Err(m) && error_is(
                m,
                BackendErrorKind::Backend,
                "Vulkan encoder produced no output packets"@,
            )
        } else {
            r matches Ok(packets) && packets@.len() == filled(encoded@).len() && forall|i: int|
                0 <= i < packets@.len() ==> is_packet_of(
                    #[trigger] packets@[i],
                    codec,
                    encoded@[filled(encoded@)[i]],
                )
        },
{
    let mut packets: Vec<EncodedPacket> = Vec::new();
    let mut i: usize = 0;
    assert(encoded@.take(0) =~= Seq::empty());
    while i < encoded.len()
        invariant
            i <= encoded.len(),
            packets@.len() == filled(encoded@.take(i as int)).len(),
            forall|k: int|
                0 <= k < packets@.len() ==> is_packet_of(
                    #[trigger] packets@[k],
                    codec,
                    encoded@[filled(encoded@.take(i as int))[k]],
                ),
        decreases encoded.len() - i,
    {
        let item = &encoded[i];
        let ghost before = encoded@.take(i as int);
        proof {
            assert(encoded@.take(i + 1).drop_last() =~= before);
        }
        if item.data.len() > 0 {
            let pts: Option<i64> = match item.pts {
                Some(pts) => u64_to_i64(pts),
                None => None,
            };
            packets.push(
                EncodedPacket {
                    codec,
                    data: copy_bytes(item.data.as_slice()),
                    pts_90k: pts,
                    is_keyframe: item.is_keyframe,
                },
            );
        }
        i = i + 1;
    }
    assert(encoded@.take(encoded@.len() as int) =~= encoded@);
    if packets.len() == 0 {
        return Err(
            BackendError::Backend(String::from_str("Vulkan encoder produced no output packets")),
        );
    }
    Ok(packets)
}

/// The packets of key frames with the times of their frames.
pub fn collect_hevc_packets(codec: Codec, encoded: &Vec<Vec<u8>>, times: &Vec<Option<i64>>) -> (r:
    Result<Vec<EncodedPacket>, BackendError>)
    ensures
        ({
            let n = if encoded@.len() < times@.len() { encoded@.len() } else { times@.len() };
            if n == 0 {
                r matches Err(m) && error_is(
                    m,
                    BackendErrorKind::Backend,
                    "Vulkan HEVC encoder produced no output packets"@,
                )
            } else {
                r matches Ok(packets) && packets@.len() == n && forall|i: int|
                    0 <= i < n ==> (#[trigger] packets@[i]).codec == codec && packets@[i].data@
                        == encoded@[i]@ && packets@[i].pts_90k == times@[i]
                        && packets@[i].is_keyframe
            }
        }),
{
    let n: usize = if encoded.len() < times.len() { encoded.len() } else { times.len() };
    let mut packets: Vec<EncodedPacket> = Vec::new();
    let mut i: usize = 0;
    while i < n
        invariant
            i <= n,
            n <= encoded@.len(),
            n <= times@.len(),
            packets@.len() == i,
            forall|k: int|
                0 <= k < i ==> (#[trigger] packets@[k]).codec == codec && packets@[k].data@
                    == encoded@[k]@ && packets@[k].pts_90k == times@[k] && packets@[k].is_keyframe,
        decreases n - i,
    {
        packets.push(
            EncodedPacket {
                codec,
                data: copy_bytes(encoded[i].as_slice()),
                pts_90k: times[i],
                is_keyframe: true,
            },
        );
        i = i + 1;
    }
    if packets.len() == 0 {
        return Err(
            BackendError::Backend(
                String::from_str("Vulkan HEVC encoder produced no output packets"),
            ),
        );
    }
    Ok(packets)
}

impl VulkanEncoderAdapter {
    pub closed spec fn spec_codec(self) -> Codec {
        self.codec
    }

    pub closed spec fn spec_fps(self) -> i32 {
        self.fps
    }

    pub closed spec fn requires_hardware(self) -> bool {
        self.require_hardware
    }

    pub closed spec fn options(self) -> VulkanEncoderOptions {
        self.options
    }

    pub closed spec fn pending(self) -> Seq<Frame> {
        self.pending_frames@
    }

    /// The size of the stream, once it is known.
    pub closed spec fn size(self) -> (Option<usize>, Option<usize>) {
        (self.width, self.height)
    }

    /// Nothing but what waits and the size differs.
    pub open spec fn same_settings(self, other: Self) -> bool {
        self.spec_codec() == other.spec_codec() && self.spec_fps() == other.spec_fps()
            && self.requires_hardware() == other.requires_hardware() && self.options()
            == other.options()
    }

    /// What waited is handed out and nothing else changes.
    pub open spec fn handed_out(self, after: Self, frames: Seq<Frame>) -> bool {
        after.same_settings(self) && after.size() == self.size() && after.pending().len() == 0
            && frames == self.pending()
    }

    /// Nothing waits, or the frames wait again.
    pub open spec fn took_note(
        self,
        after: Self,
        frames: Seq<Frame>,
        result: Result<Vec<EncodedPacket>, BackendError>,
    ) -> bool {
        after.same_settings(self) && after.size() == self.size() && match result {
            Ok(_) => after.pending().len() == 0,
            Err(_) => after.pending() == frames,
        }
    }

    pub fn with_config(
        codec: Codec,
        fps: i32,
        require_hardware: bool,
        backend_options: BackendEncoderOptions,
    ) -> (r: Self)
        ensures
            r.spec_codec() == codec,
            r.spec_fps() == fps,
            r.requires_hardware() == require_hardware,
            match backend_options {
                BackendEncoderOptions::Vulkan(options) => r.options() == options,
                _ => r.options() == (VulkanEncoderOptions {
                    allow_software_fallback: None,
                    adapter_index: None,
                }),
            },
            r.pending().len() == 0,
            r.size() == (None::<usize>, None::<usize>),
    {
        let options = match backend_options {
            BackendEncoderOptions::Vulkan(options) => options,
            _ => VulkanEncoderOptions { allow_software_fallback: None, adapter_index: None },
        };
        VulkanEncoderAdapter {
            codec,
            fps,
            require_hardware,
            options,
            pending_frames: Vec::new(),
            width: None,
            height: None,
        }
    }

    pub fn codec(&self) -> (r: Codec)
        ensures
            r == self.spec_codec(),
    {
        self.codec
    }

    pub fn fps(&self) -> (r: i32)
        ensures
            r == self.spec_fps(),
    {
        self.fps
    }

    pub fn adapter_index(&self) -> (r: Option<usize>)
        ensures
            r == self.options().adapter_index,
    {
        self.options.adapter_index
    }

    /// Takes a frame. The first one gives the stream its size.
    pub fn push_frame(&mut self, frame: Frame)
        ensures
            final(self).same_settings(*old(self)),
            final(self).pending() == old(self).pending().push(frame),
            final(self).size() == (if old(self).size().0 is None || old(self).size().1 is None {
                (Some(frame.width), Some(frame.height))
            } else {
                old(self).size()
            }),
    {
        if self.width.is_none() || self.height.is_none() {
            self.width = Some(frame.width);
            self.height = Some(frame.height);
        }
        self.pending_frames.push(frame);
    }

    /// The size of the stream, which must be known and not empty.
    pub fn stream_size(&self) -> (r: Result<(usize, usize), BackendError>)
        ensures
            match self.size() {
                (Some(w), Some(h)) => if w > 0 && h > 0 {
                    r matches Ok(size) && size == (w, h)
                } else {
                    r matches Err(m) && error_is(
                        m,
                        BackendErrorKind::InvalidInput,
                        "encoder dimensions are not initialized"@,
                    )
                },
                _ => r matches Err(m) && error_is(
                    m,
                    BackendErrorKind::InvalidInput,
                    "encoder dimensions are not initialized"@,
                ),
            },
    {
        let width: usize = match self.width {
            Some(w) => w,
            None => 0,
        };
        let height: usize = match self.height {
            Some(h) => h,
            None => 0,
        };
        if width == 0 || height == 0 {
            return Err(invalid_input("encoder dimensions are not initialized"));
        }
        Ok((width, height))
    }

    /// An error of setting up a device. Where software would do, the error says that
    /// there is none.
    pub fn setup_error(&self, error: BackendError) -> (r: BackendError)
        ensures
            !self.requires_hardware() && self.options().allow_software_fallback != Some(false)
                ==> error_is(
                r,
                BackendErrorKind::UnsupportedConfig,
                error.text()
                    + "; software fallback is not available in direct Vulkan backend"@,
            ),
            self.requires_hardware() || self.options().allow_software_fallback == Some(false) ==> r
                == error,
    {
        let fallback: bool = match self.options.allow_software_fallback {
            Some(allowed) => allowed,
            None => true,
        };
        if !self.require_hardware && fallback {
            BackendError::UnsupportedConfig(
                error.to_string().concat(
                    "; software fallback is not available in direct Vulkan backend",
                ),
            )
        } else {
            error
        }
    }

    /// Hands out the frames that wait, to be encoded. There is nothing to do where
    /// nothing waits.
    pub fn take_pending(&mut self) -> (r: Option<Vec<Frame>>)
        ensures
            match r {
                None => old(self).pending().len() == 0 && old(self).handed_out(
                    *final(self),
                    Seq::empty(),
                ),
                Some(frames) => frames@.len() > 0 && old(self).handed_out(*final(self), frames@),
            },
    {
        if self.pending_frames.len() == 0 {
            assert(self.pending_frames@ =~= Seq::empty());
            return None;
        }
        let mut taken: Vec<Frame> = Vec::new();
        taken.append(&mut self.pending_frames);
        assert(taken@ =~= old(self).pending());
        Some(taken)
    }

    /// Takes note of how encoding what was handed out went. After a failure the frames
    /// wait again.
    pub fn finish_flush(
        &mut self,
        taken: Vec<Frame>,
        result: Result<Vec<EncodedPacket>, BackendError>,
    ) -> (r: Result<Vec<EncodedPacket>, BackendError>)
        requires
            old(self).pending().len() == 0,
        ensures
            r == result,
            old(self).took_note(*final(self), taken@, result),
    {
        match result {
            Ok(packets) => Ok(packets),
            Err(e) => {
                self.pending_frames = taken;
                Err(e)
            },
        }
    }
}

/// An encoder that fails to encode is as it was before: the same frames wait.
pub proof fn law_failed_encode_changes_nothing(
    before: VulkanEncoderAdapter,
    between: VulkanEncoderAdapter,
    after: VulkanEncoderAdapter,
    frames: Seq<Frame>,
    result: Result<Vec<EncodedPacket>, BackendError>,
)
    requires
        before.handed_out(between, frames),
        between.took_note(after, frames, result),
        result is Err,
    ensures
        after.same_settings(before),
        after.size() == before.size(),
        after.pending() == before.pending(),
{
}

} // verus!
