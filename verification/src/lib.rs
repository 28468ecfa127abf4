//! Building blocks for hardware video, whose behaviour is stated in contracts and proved.
//!
//! `bitstream`, `pixel`, `frame` and the modules of plain types hold what all codecs share.
//! `av1` reads AV1 streams and plans their decoding, `hevc` plans HEVC encoding, `vulkan` makes
//! the choices that a Vulkan device leaves open, and `backend` turns what a device gives back
//! into frames and packets.

pub mod access_unit_laws;
pub mod av1;
pub mod backend;
pub mod bit_laws;
pub mod bits;
pub mod bitstream;
pub mod capability;
pub mod choice_laws;
pub mod config;
pub mod error;
pub mod frame;
pub mod hevc;
pub mod nal_laws;
pub mod nonzero;
pub mod order;
pub mod pixel;
pub mod pixel_laws;
pub mod text;
pub mod text_laws;
pub mod types;
pub mod vk_names;
pub mod vulkan;

pub use backend::decode::VulkanDecoderAdapter;
pub use backend::encode::VulkanEncoderAdapter;
pub use capability::{
    CapabilityContract, CapabilityReport, DecodeCapability, DecodeOutputCapability,
    DecodeOutputOrigin, DimensionConstraints, EncodeCapability, FallbackPolicy, RuntimeCapability,
    RuntimeStatus, StreamingMode,
};
pub use config::{
    AndroidDecoderOptions, AndroidEncoderOptions, BackendDecoderOptions, BackendEncoderOptions,
    DecoderConfig, EncoderConfig, IntelDecoderOptions, IntelEncoderOptions, NvidiaDecoderOptions,
    NvidiaEncoderOptions, NvidiaSessionConfig, SessionSwitchRequest, VtDecoderOptions,
    VtEncoderOptions, VtSessionConfig, VulkanDecoderOptions, VulkanEncoderOptions,
};
pub use error::{BackendError, BackendErrorKind};
pub use frame::{
    BitstreamInput, ColorMetadata, DecodeSummary, DecodedFrame, EncodeFrame, EncodedChunk,
    EncodedPacket, Frame, Nv12FramePayload, Nv12FrameRef, PitchBytes, PixelHeight, PixelWidth,
    RawFrameBuffer, Rgb24FrameRef, VideoDecoder, VideoEncoder,
};
pub use nonzero::NonZeroU32;
pub use pixel::{
    ColorConvertOptions, ColorMatrix, ColorRange, Nv12Frame, PixelBufferOwned, PixelOutputLayout,
    RgbFrame, nv12_to_rgb24,
};
pub use types::{
    Codec, DecodeOutputMode, Dimensions, EncodeInputFormat, EncodedLayout, SessionSwitchMode,
    Timestamp90k,
};
