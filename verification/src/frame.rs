//! Frames, chunks and packets, and the interfaces of decoders and encoders.

use crate::bitstream::{
    all_fit, annexb_to_length_prefixed, annexb_units, copy_bytes, first_too_long, is_invalid,
    length_prefixed_bytes, payload_bytes, payload_to_annexb, payload_to_decode_payload,
    payload_to_nalus, payload_units, unit_views, AnnexBAccessUnit, AnnexBAccessUnitRef,
    BitstreamError, DecodePayload, EncodedPayloadRef, LengthPrefixedSample, NalLengthSize, NalUnit,
};
use crate::capability::CapabilityReport;
use crate::config::SessionSwitchRequest;
use crate::error::{error_is, unsupported_config, BackendError, BackendErrorKind};
use crate::nonzero::NonZeroU32;
use crate::pixel::{
    chroma_in_bounds, nv12_pitch_message, nv12_rgb, nv12_size_message, nv12_to_pixel_buffer,
    nv12_total, packed, pixel_count, rgb24_to_pixel_buffer, rgb_size_message, ColorConvertOptions,
    PixelBufferOwned, PixelOutputLayout,
};
use crate::text::{decimal, optional_decimal, optional_decimal_text, size_text};
use crate::types::{Codec, Dimensions, EncodeInputFormat, EncodedLayout, Timestamp90k};
use std::sync::Arc;
use vstd::prelude::*;
use vstd::string::*;

verus! {

#[derive(Debug, Clone)]
pub enum BitstreamInput {
    AnnexBChunk { chunk: Vec<u8>, pts_90k: Option<Timestamp90k> },
    AccessUnitRawNal { codec: Codec, nalus: Vec<Vec<u8>>, pts_90k: Option<Timestamp90k> },
    LengthPrefixedSample { codec: Codec, sample: Vec<u8>, pts_90k: Option<Timestamp90k> },
}

#[derive(Debug, Clone)]
pub enum RawFrameBuffer {
    Argb8888(Vec<u8>),
    Argb8888Shared(Arc<[u8]>),
    Nv12 { pitch: usize, data: Vec<u8> },
}

impl RawFrameBuffer {
    pub fn input_format(&self) -> (r: EncodeInputFormat)
        ensures
            r == (if self is Nv12 { EncodeInputFormat::Nv12 } else { EncodeInputFormat::Argb8888 }),
    {
        match self {
            RawFrameBuffer::Argb8888(_) | RawFrameBuffer::Argb8888Shared(_) => {
                EncodeInputFormat::Argb8888
            },
            RawFrameBuffer::Nv12 { .. } => EncodeInputFormat::Nv12,
        }
    }
}

#[derive(Debug, Clone)]
pub struct EncodeFrame {
    pub dims: Dimensions,
    pub pts_90k: Option<Timestamp90k>,
    pub buffer: RawFrameBuffer,
    pub force_keyframe: bool,
}

#[derive(Debug, Clone)]
pub struct EncodedChunk {
    pub codec: Codec,
    pub layout: EncodedLayout,
    pub data: Vec<u8>,
    pub pts_90k: Option<Timestamp90k>,
    pub is_keyframe: bool,
}

impl EncodedChunk {
    pub fn payload_ref(&self) -> (r: EncodedPayloadRef<'_>)
        ensures
            r.codec == self.codec,
            r.layout == self.layout,
            r.data@ == self.data@,
            r.is_keyframe == self.is_keyframe,
    {
        EncodedPayloadRef {
            codec: self.codec,
            layout: self.layout,
            data: self.data.as_slice(),
            is_keyframe: self.is_keyframe,
        }
    }

    pub fn to_annexb(&self) -> (r: Result<AnnexBAccessUnit, BitstreamError>)
        ensures
            payload_bytes(
                self.layout,
                self.data@,
                NalLengthSize::Four,
                match r {
                    Ok(unit) => Ok(unit@),
                    Err(e) => Err(e),
                },
            ),
    {
        payload_to_annexb(self.payload_ref(), NalLengthSize::Four)
    }

    pub fn to_nalus(&self) -> (r: Result<Vec<NalUnit>, BitstreamError>)
        ensures
            self.layout == EncodedLayout::Av1 ==> (r matches Ok(units) && unit_views(units@)
                == seq![self.data@]),
            self.layout != EncodedLayout::Av1 ==> payload_units(
                self.layout,
                self.data@,
                NalLengthSize::Four,
                match r {
                    Ok(units) => Ok(unit_views(units@)),
                    Err(e) => Err(e),
                },
            ),
    {
        payload_to_nalus(self.payload_ref(), NalLengthSize::Four)
    }

    pub fn to_decode_payload(&self) -> (r: Result<DecodePayload, BitstreamError>)
        ensures
            payload_bytes(
                self.layout,
                self.data@,
                NalLengthSize::Four,
                match r {
                    Ok(out) => Ok(out@),
                    Err(e) => Err(e),
                },
            ),
    {
        payload_to_decode_payload(self.payload_ref(), NalLengthSize::Four)
    }

    /// The chunk as a length-prefixed sample. Data that are not in Annex-B form are
    /// taken as they are.
    pub fn to_length_prefixed_sample(&self, nal_length_size: NalLengthSize) -> (r: Result<
        LengthPrefixedSample,
        BitstreamError,
    >)
        ensures
            match self.layout {
                EncodedLayout::AnnexB => match r {
                    Ok(sample) => annexb_units(self.data@) is Some && all_fit(
                        annexb_units(self.data@)->0,
                        nal_length_size,
                    ) && sample@ == length_prefixed_bytes(
                        annexb_units(self.data@)->0,
                        nal_length_size,
                    ),
                    Err(e) => match annexb_units(self.data@) {
                        None => is_invalid(e, "Annex-B payload does not contain a start code"@),
                        Some(units) => !all_fit(units, nal_length_size) && is_invalid(
                            e,
                            "NAL unit length "@ + decimal(
                                units[first_too_long(units, nal_length_size)].len(),
                            ) + " does not fit in "@ + decimal(nal_length_size.spec_bytes())
                                + " bytes"@,
                        ),
                    },
                },
                EncodedLayout::Avcc | EncodedLayout::Hvcc | EncodedLayout::Av1 => r matches Ok(
                    sample,
                ) && sample@ == self.data@,
                EncodedLayout::Opaque => r matches Err(e) && e == BitstreamError::OpaquePayload,
            },
    {
        match self.layout {
            EncodedLayout::AnnexB => annexb_to_length_prefixed(
                AnnexBAccessUnitRef::new(self.data.as_slice()),
                nal_length_size,
            ),
            EncodedLayout::Avcc | EncodedLayout::Hvcc | EncodedLayout::Av1 => Ok(
                LengthPrefixedSample::new(copy_bytes(self.data.as_slice())),
            ),
            EncodedLayout::Opaque => Err(BitstreamError::OpaquePayload),
        }
    }
}

#[derive(Debug, Clone, Copy, PartialEq, Eq, Structural)]
pub struct ColorMetadata {
    pub color_primaries: Option<i32>,
    pub transfer_function: Option<i32>,
    pub ycbcr_matrix: Option<i32>,
}

#[derive(Debug, Clone)]
pub enum DecodedFrame {
    Metadata {
        dims: Option<Dimensions>,
        pts_90k: Option<Timestamp90k>,
        pixel_format: Option<u32>,
        decode_info_flags: Option<u32>,
        color: Option<ColorMetadata>,
    },
    Nv12 { dims: Dimensions, pitch: usize, pts_90k: Option<Timestamp90k>, data: Vec<u8> },
    Rgb24 { dims: Dimensions, pts_90k: Option<Timestamp90k>, data: Vec<u8> },
}

#[derive(Debug, Clone, Copy, PartialEq, Eq, Structural)]
pub struct PitchBytes(pub usize);

#[derive(Debug, Clone, Copy, PartialEq, Eq, Structural)]
pub struct PixelWidth(pub NonZeroU32);

#[derive(Debug, Clone, Copy, PartialEq, Eq, Structural)]
pub struct PixelHeight(pub NonZeroU32);

#[derive(Debug, Clone, Copy, PartialEq, Eq)]
pub struct Nv12FrameRef<'a> {
    pub dims: Dimensions,
    pub pitch: PitchBytes,
    pub pts_90k: Option<Timestamp90k>,
    pub data: &'a [u8],
}

#[derive(Debug, Clone, Copy, PartialEq, Eq)]
pub struct Rgb24FrameRef<'a> {
    pub dims: Dimensions,
    pub pts_90k: Option<Timestamp90k>,
    pub data: &'a [u8],
}

/// The image can be converted without leaving its data.
pub open spec fn convertible(frame: DecodedFrame) -> bool {
    match frame {
        DecodedFrame::Metadata { .. } => true,
        DecodedFrame::Rgb24 { dims, .. } => 3 * pixel_count(dims) <= usize::MAX,
        DecodedFrame::Nv12 { dims, pitch, data, .. } => {
            let width = dims.width.spec_value() as int;
            let height = dims.height.spec_value() as int;
            let luma = pitch * height;
            &&& pitch >= width && luma <= usize::MAX ==> nv12_total(luma) <= usize::MAX
            &&& pitch >= width && luma <= usize::MAX && data@.len() >= nv12_total(luma) ==> 3
                * pixel_count(dims) <= usize::MAX && chroma_in_bounds(
                data@.len(),
                pitch as int,
                luma,
                width,
                height,
            )
        },
    }
}

impl DecodedFrame {
    pub fn try_as_nv12(&self) -> (r: Option<Nv12FrameRef<'_>>)
        ensures
            match *self {
                DecodedFrame::Nv12 { dims, pitch, pts_90k, data } => r matches Some(f) && f.dims
                    == dims && f.pitch.0 == pitch && f.pts_90k == pts_90k && f.data@ == data@,
                _ => r is None,
            },
    {
        match self {
            DecodedFrame::Nv12 { dims, pitch, pts_90k, data } => Some(
                Nv12FrameRef {
                    dims: *dims,
                    pitch: PitchBytes(*pitch),
                    pts_90k: *pts_90k,
                    data: data.as_slice(),
                },
            ),
            _ => None,
        }
    }

    pub fn try_as_rgb24(&self) -> (r: Option<Rgb24FrameRef<'_>>)
        ensures
            match *self {
                DecodedFrame::Rgb24 { dims, pts_90k, data } => r matches Some(f) && f.dims == dims
                    && f.pts_90k == pts_90k && f.data@ == data@,
                _ => r is None,
            },
    {
        match self {
            DecodedFrame::Rgb24 { dims, pts_90k, data } => Some(
                Rgb24FrameRef { dims: *dims, pts_90k: *pts_90k, data: data.as_slice() },
            ),
            _ => None,
        }
    }

    /// The pixels in a layout.
    pub fn to_pixel_buffer(&self, layout: PixelOutputLayout, options: ColorConvertOptions) -> (r:
        Result<PixelBufferOwned, BackendError>)
        requires
            convertible(*self),
        ensures
            match *self {
                DecodedFrame::Metadata { .. } => r matches Err(e) && error_is(
                    e,
                    BackendErrorKind::UnsupportedConfig,
                    "metadata-only decoded frame has no pixel payload"@,
                ),
                DecodedFrame::Rgb24 { dims, data, .. } => match r {
                    Ok(buffer) => data@.len() == 3 * pixel_count(dims) && buffer.layout == layout
                        && buffer.dims == dims && buffer.data@ == packed(
                        layout,
                        data@,
                        pixel_count(dims),
                    ),
                    Err(e) => data@.len() != 3 * pixel_count(dims) && error_is(
                        e,
                        BackendErrorKind::InvalidInput,
                        rgb_size_message(3 * pixel_count(dims), data@.len()),
                    ),
                },
                DecodedFrame::Nv12 { dims, pitch, data, .. } => {
                    let width = dims.width.spec_value() as nat;
                    let height = dims.height.spec_value() as nat;
                    let luma = (pitch * height) as int;
                    if pitch < width {
                        r matches Err(e) && error_is(
                            e,
                            BackendErrorKind::InvalidInput,
                            nv12_pitch_message(pitch as nat, width),
                        )
                    } else if luma > usize::MAX {
                        r matches Err(e) && error_is(
                            e,
                            BackendErrorKind::InvalidInput,
                            "nv12 luma size overflow"@,
                        )
                    } else if data@.len() < nv12_total(luma) {
                        r matches Err(e) && error_is(
                            e,
                            BackendErrorKind::InvalidInput,
                            nv12_size_message(nv12_total(luma) as nat, data@.len()),
                        )
                    } else {
                        r matches Ok(buffer) && buffer.layout == layout && buffer.dims == dims
                            && buffer.data@ == packed(
                            layout,
                            nv12_rgb(data@, pitch as int, luma, options, width, height),
                            pixel_count(dims),
                        )
                    }
                },
            },
    {
        match self {
            DecodedFrame::Rgb24 { dims, data, .. } => rgb24_to_pixel_buffer(
                *dims,
                data.as_slice(),
                layout,
            ),
            DecodedFrame::Nv12 { dims, pitch, data, .. } => nv12_to_pixel_buffer(
                *dims,
                *pitch,
                data.as_slice(),
                layout,
                options,
            ),
            DecodedFrame::Metadata { .. } => Err(
                unsupported_config("metadata-only decoded frame has no pixel payload"),
            ),
        }
    }
}

#[derive(Debug, Clone)]
pub struct Nv12FramePayload {
    pub pitch: usize,
    pub data: Vec<u8>,
}

#[derive(Debug, Clone)]
pub struct Frame {
    pub width: usize,
    pub height: usize,
    pub pixel_format: Option<u32>,
    pub pts_90k: Option<i64>,
    pub decode_info_flags: Option<u32>,
    pub color_primaries: Option<i32>,
    pub transfer_function: Option<i32>,
    pub ycbcr_matrix: Option<i32>,
    pub argb: Option<Vec<u8>>,
    pub nv12: Option<Nv12FramePayload>,
    pub force_keyframe: bool,
}

#[derive(Debug, Clone, Copy)]
pub struct DecodeSummary {
    pub decoded_frames: usize,
    pub width: Option<usize>,
    pub height: Option<usize>,
    pub pixel_format: Option<u32>,
}

/// A size as a number, where there is one.
pub open spec fn optional_size(value: Option<usize>) -> Option<nat> {
    match value {
        None => None,
        Some(n) => Some(n as nat),
    }
}

fn optional_size_text(value: Option<usize>) -> (r: String)
    ensures
        r@ == optional_decimal(optional_size(value)),
{
    optional_decimal_text(
        match value {
            None => None,
            Some(n) => Some(n as u64),
        },
    )
}

impl DecodeSummary {
    pub open spec fn text(self) -> Seq<char> {
        "DecodeSummary(decoded_frames="@ + decimal(self.decoded_frames as nat) + ", width="@
            + optional_decimal(optional_size(self.width)) + ", height="@ + optional_decimal(
            optional_size(self.height),
        ) + ", pixel_format="@ + optional_decimal(
            match self.pixel_format {
                None => None,
                Some(n) => Some(n as nat),
            },
        ) + ")"@
    }

    pub fn to_string(&self) -> (r: String)
        ensures
            r@ == self.text(),
    {
        String::from_str("DecodeSummary(decoded_frames=").concat(
            size_text(self.decoded_frames).as_str(),
        ).concat(", width=").concat(optional_size_text(self.width).as_str()).concat(
            ", height=",
        ).concat(optional_size_text(self.height).as_str()).concat(", pixel_format=").concat(
            optional_decimal_text(
                match self.pixel_format {
                    None => None,
                    Some(n) => Some(n as u64),
                },
            ).as_str(),
        ).concat(")")
    }
}

#[derive(Debug, Clone)]
pub struct EncodedPacket {
    pub codec: Codec,
    pub data: Vec<u8>,
    pub pts_90k: Option<i64>,
    pub is_keyframe: bool,
}

/// A decoder of one stream.
pub trait VideoDecoder {
    fn query_capability(&self, codec: Codec) -> Result<CapabilityReport, BackendError>;

    fn push_bitstream_chunk(&mut self, chunk: &[u8], pts_90k: Option<i64>) -> Result<
        Vec<Frame>,
        BackendError,
    >;

    fn flush(&mut self) -> Result<Vec<Frame>, BackendError>;

    /// Frames that are ready; none unless an implementation says otherwise.
    fn try_reap(&mut self) -> (r: Result<Vec<Frame>, BackendError>)
        default_ensures
            r matches Ok(frames) && frames@.len() == 0,
    {
        Ok(Vec::new())
    }

    fn decode_summary(&self) -> DecodeSummary;
}

/// An encoder of one stream.
pub trait VideoEncoder {
    fn query_capability(&self, codec: Codec) -> Result<CapabilityReport, BackendError>;

    fn push_frame(&mut self, frame: Frame) -> Result<Vec<EncodedPacket>, BackendError>;

    fn flush(&mut self) -> Result<Vec<EncodedPacket>, BackendError>;

    /// Packets that are ready; none unless an implementation says otherwise.
    fn try_reap(&mut self) -> (r: Result<Vec<EncodedPacket>, BackendError>)
        default_ensures
            r matches Ok(packets) && packets@.len() == 0,
    {
        Ok(Vec::new())
    }

    /// Asks for other session settings; refused unless an implementation says
    /// otherwise.
    fn request_session_switch(&mut self, _request: SessionSwitchRequest) -> (r: Result<
        (),
        BackendError,
    >)
        default_ensures
            r matches Err(e) && error_is(
                e,
                BackendErrorKind::UnsupportedConfig,
                "session switching is not supported by this backend"@,
            ),
    {
        Err(unsupported_config("session switching is not supported by this backend"))
    }

    fn pipeline_generation_hint(&self) -> (r: Option<u64>)
        default_ensures
            r is None,
    {
        None
    }
}

} // verus!
