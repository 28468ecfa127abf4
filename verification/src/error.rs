//! Backend errors.

use crate::bitstream::BitstreamError;
use crate::types::Codec;
use vstd::prelude::*;
use vstd::string::*;

verus! {

#[derive(Debug)]
pub enum BackendError {
    UnsupportedCodec(Codec),
    UnsupportedConfig(String),
    InvalidBitstream(String),
    InvalidInput(String),
    TemporaryBackpressure(String),
    DeviceLost(String),
    Backend(String),
}

#[derive(Debug, Clone, Copy, PartialEq, Eq, Structural)]
pub enum BackendErrorKind {
    UnsupportedCodec,
    UnsupportedConfig,
    InvalidBitstream,
    InvalidInput,
    TemporaryBackpressure,
    DeviceLost,
    Backend,
}

/// The variant's name.
pub open spec fn codec_name(codec: Codec) -> Seq<char> {
    match codec {
        Codec::H264 => "H264"@,
        Codec::Hevc => "Hevc"@,
        Codec::Av1 => "Av1"@,
    }
}

pub fn codec_name_text(codec: Codec) -> (r: &'static str)
    ensures
        r@ == codec_name(codec),
{
    match codec {
        Codec::H264 => "H264",
        Codec::Hevc => "Hevc",
        Codec::Av1 => "Av1",
    }
}

/// The error has this kind and this message.
pub open spec fn error_is(e: BackendError, kind: BackendErrorKind, message: Seq<char>) -> bool {
    e.spec_kind() == kind && e.message() == message
}

pub fn invalid_input(message: &str) -> (e: BackendError)
    ensures
        error_is(e, BackendErrorKind::InvalidInput, message@),
{
    BackendError::InvalidInput(String::from_str(message))
}

pub fn unsupported_config(message: &str) -> (e: BackendError)
    ensures
        error_is(e, BackendErrorKind::UnsupportedConfig, message@),
{
    BackendError::UnsupportedConfig(String::from_str(message))
}

impl BackendError {
    pub open spec fn spec_kind(self) -> BackendErrorKind {
        match self {
            BackendError::UnsupportedCodec(_) => BackendErrorKind::UnsupportedCodec,
            BackendError::UnsupportedConfig(_) => BackendErrorKind::UnsupportedConfig,
            BackendError::InvalidBitstream(_) => BackendErrorKind::InvalidBitstream,
            BackendError::InvalidInput(_) => BackendErrorKind::InvalidInput,
            BackendError::TemporaryBackpressure(_) => BackendErrorKind::TemporaryBackpressure,
            BackendError::DeviceLost(_) => BackendErrorKind::DeviceLost,
            BackendError::Backend(_) => BackendErrorKind::Backend,
        }
    }

    /// What the error carries: its message, or the name of the codec.
    pub open spec fn message(self) -> Seq<char> {
        match self {
            BackendError::UnsupportedCodec(codec) => codec_name(codec),
            BackendError::UnsupportedConfig(m) => m@,
            BackendError::InvalidBitstream(m) => m@,
            BackendError::InvalidInput(m) => m@,
            BackendError::TemporaryBackpressure(m) => m@,
            BackendError::DeviceLost(m) => m@,
            BackendError::Backend(m) => m@,
        }
    }

    /// The text of the error.
    pub open spec fn text(self) -> Seq<char> {
        match self {
            BackendError::UnsupportedCodec(codec) => "unsupported codec: "@ + codec_name(codec),
            BackendError::UnsupportedConfig(m) => "unsupported config: "@ + m@,
            BackendError::InvalidBitstream(m) => "invalid bitstream: "@ + m@,
            BackendError::InvalidInput(m) => "invalid input: "@ + m@,
            BackendError::TemporaryBackpressure(m) => "temporary backpressure: "@ + m@,
            BackendError::DeviceLost(m) => "device lost: "@ + m@,
            BackendError::Backend(m) => "backend error: "@ + m@,
        }
    }

    pub fn to_string(&self) -> (r: String)
        ensures
            r@ == self.text(),
    {
        match self {
            BackendError::UnsupportedCodec(codec) => String::from_str("unsupported codec: ").concat(
                codec_name_text(*codec),
            ),
            BackendError::UnsupportedConfig(m) => String::from_str("unsupported config: ").concat(m.as_str()),
            BackendError::InvalidBitstream(m) => String::from_str("invalid bitstream: ").concat(m.as_str()),
            BackendError::InvalidInput(m) => String::from_str("invalid input: ").concat(m.as_str()),
            BackendError::TemporaryBackpressure(m) => String::from_str("temporary backpressure: ").concat(m.as_str()),
            BackendError::DeviceLost(m) => String::from_str("device lost: ").concat(m.as_str()),
            BackendError::Backend(m) => String::from_str("backend error: ").concat(m.as_str()),
        }
    }

    pub fn kind(&self) -> (r: BackendErrorKind)
        ensures
            r == self.spec_kind(),
    {
        match self {
            BackendError::UnsupportedCodec(_) => BackendErrorKind::UnsupportedCodec,
            BackendError::UnsupportedConfig(_) => BackendErrorKind::UnsupportedConfig,
            BackendError::InvalidBitstream(_) => BackendErrorKind::InvalidBitstream,
            BackendError::InvalidInput(_) => BackendErrorKind::InvalidInput,
            BackendError::TemporaryBackpressure(_) => BackendErrorKind::TemporaryBackpressure,
            BackendError::DeviceLost(_) => BackendErrorKind::DeviceLost,
            BackendError::Backend(_) => BackendErrorKind::Backend,
        }
    }

    /// Whether the backend cannot run here at all.
    pub fn is_runtime_unavailable(&self) -> (r: bool)
        ensures
            r == (self.spec_kind() == BackendErrorKind::UnsupportedConfig || self.spec_kind()
                == BackendErrorKind::DeviceLost),
    {
        match self.kind() {
            BackendErrorKind::UnsupportedConfig | BackendErrorKind::DeviceLost => true,
            _ => false,
        }
    }

    /// A bitstream error as a backend error, with the text of the former.
    pub fn from_bitstream(value: BitstreamError) -> (r: BackendError)
        ensures
            error_is(r, BackendErrorKind::InvalidBitstream, value.text()),
    {
        BackendError::InvalidBitstream(value.to_string())
    }
}

impl vstd::std_specs::convert::FromSpecImpl<BitstreamError> for BackendError {
    open spec fn obeys_from_spec() -> bool {
        false
    }

    open spec fn from_spec(value: BitstreamError) -> BackendError {
        arbitrary()
    }
}

impl From<BitstreamError> for BackendError {
    fn from(value: BitstreamError) -> (r: BackendError)
        ensures
            error_is(r, BackendErrorKind::InvalidBitstream, value.text()),
    {
        BackendError::from_bitstream(value)
    }
}

} // verus!
