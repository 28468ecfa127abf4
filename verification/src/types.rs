//! Codecs, layouts, dimensions and time stamps, with the text each is shown as.

use crate::nonzero::NonZeroU32;
use crate::text::{decimal, decimal_text, signed_decimal, signed_text};
use vstd::prelude::*;
use vstd::string::*;

verus! {

#[derive(Debug, Clone, Copy, PartialEq, Eq, Structural)]
pub enum Codec {
    H264,
    Hevc,
    Av1,
}

impl Codec {
    pub open spec fn text(self) -> Seq<char> {
        match self {
            Codec::H264 => "h264"@,
            Codec::Hevc => "hevc"@,
            Codec::Av1 => "av1"@,
        }
    }

    pub fn to_string(&self) -> (r: String)
        ensures
            r@ == self.text(),
    {
        match self {
            Codec::H264 => String::from_str("h264"),
            Codec::Hevc => String::from_str("hevc"),
            Codec::Av1 => String::from_str("av1"),
        }
    }
}

#[derive(Debug, Clone, Copy, PartialEq, Eq, Structural)]
pub enum EncodedLayout {
    AnnexB,
    Avcc,
    Hvcc,
    Av1,
    Opaque,
}

impl EncodedLayout {
    pub open spec fn text(self) -> Seq<char> {
        match self {
            EncodedLayout::AnnexB => "annexb"@,
            EncodedLayout::Avcc => "avcc"@,
            EncodedLayout::Hvcc => "hvcc"@,
            EncodedLayout::Av1 => "av1"@,
            EncodedLayout::Opaque => "opaque"@,
        }
    }

    pub fn to_string(&self) -> (r: String)
        ensures
            r@ == self.text(),
    {
        match self {
            EncodedLayout::AnnexB => String::from_str("annexb"),
            EncodedLayout::Avcc => String::from_str("avcc"),
            EncodedLayout::Hvcc => String::from_str("hvcc"),
            EncodedLayout::Av1 => String::from_str("av1"),
            EncodedLayout::Opaque => String::from_str("opaque"),
        }
    }
}

#[derive(Debug, Clone, Copy, PartialEq, Eq, Structural)]
pub enum EncodeInputFormat {
    Argb8888,
    Nv12,
}

impl EncodeInputFormat {
    pub open spec fn text(self) -> Seq<char> {
        match self {
            EncodeInputFormat::Argb8888 => "argb8888"@,
            EncodeInputFormat::Nv12 => "nv12"@,
        }
    }

    pub fn to_string(&self) -> (r: String)
        ensures
            r@ == self.text(),
    {
        match self {
            EncodeInputFormat::Argb8888 => String::from_str("argb8888"),
            EncodeInputFormat::Nv12 => String::from_str("nv12"),
        }
    }
}

#[derive(Debug, Clone, Copy, PartialEq, Eq, Structural)]
pub enum DecodeOutputMode {
    Metadata,
    Nv12,
    Rgb24,
}

impl DecodeOutputMode {
    pub open spec fn text(self) -> Seq<char> {
        match self {
            DecodeOutputMode::Metadata => "metadata"@,
            DecodeOutputMode::Nv12 => "nv12"@,
            DecodeOutputMode::Rgb24 => "rgb24"@,
        }
    }

    pub fn to_string(&self) -> (r: String)
        ensures
            r@ == self.text(),
    {
        match self {
            DecodeOutputMode::Metadata => String::from_str("metadata"),
            DecodeOutputMode::Nv12 => String::from_str("nv12"),
            DecodeOutputMode::Rgb24 => String::from_str("rgb24"),
        }
    }
}

#[derive(Debug, Clone, Copy, PartialEq, Eq, Structural)]
pub enum SessionSwitchMode {
    Immediate,
    OnNextKeyframe,
    DrainThenSwap,
}

impl SessionSwitchMode {
    pub open spec fn text(self) -> Seq<char> {
        match self {
            SessionSwitchMode::Immediate => "immediate"@,
            SessionSwitchMode::OnNextKeyframe => "on_next_keyframe"@,
            SessionSwitchMode::DrainThenSwap => "drain_then_swap"@,
        }
    }

    pub fn to_string(&self) -> (r: String)
        ensures
            r@ == self.text(),
    {
        match self {
            SessionSwitchMode::Immediate => String::from_str("immediate"),
            SessionSwitchMode::OnNextKeyframe => String::from_str("on_next_keyframe"),
            SessionSwitchMode::DrainThenSwap => String::from_str("drain_then_swap"),
        }
    }
}

impl Default for DecodeOutputMode {
    fn default() -> (r: Self)
        ensures
            r == DecodeOutputMode::Metadata,
    {
        DecodeOutputMode::Metadata
    }
}

#[derive(Debug, Clone, Copy, PartialEq, Eq, Structural)]
pub struct Timestamp90k(pub i64);

impl Timestamp90k {
    pub open spec fn text(self) -> Seq<char> {
        signed_decimal(self.0 as int) + "@90k"@
    }

    pub fn to_string(&self) -> (r: String)
        ensures
            r@ == self.text(),
    {
        signed_text(self.0).concat("@90k")
    }
}

#[derive(Debug, Clone, Copy, PartialEq, Eq, Structural)]
pub struct Dimensions {
    pub width: NonZeroU32,
    pub height: NonZeroU32,
}

impl Dimensions {
    pub open spec fn text(self) -> Seq<char> {
        decimal(self.width.spec_value() as nat) + "x"@ + decimal(self.height.spec_value() as nat)
    }

    pub fn to_string(&self) -> (r: String)
        ensures
            r@ == self.text(),
    {
        decimal_text(self.width.get() as u64).concat("x").concat(
            decimal_text(self.height.get() as u64).as_str(),
        )
    }
}

} // verus!
