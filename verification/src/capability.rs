//! What a backend offers for a codec, and what is known of it at run time.

use crate::text::{bool_chars, bool_text, join_text, joined, views};
use crate::types::{Codec, DecodeOutputMode, EncodeInputFormat, EncodedLayout};
use vstd::prelude::*;
use vstd::string::*;

verus! {

#[derive(Debug, Clone, Copy, PartialEq, Eq, Structural)]
pub enum DecodeOutputOrigin {
    MetadataOnly,
    Native,
    ConvertedFromArgb,
    ConvertedFromNv12,
    ConvertedFromBgra,
}

/// The name of the variant.
pub open spec fn decode_output_origin_name(value: DecodeOutputOrigin) -> Seq<char> {
    match value {
        DecodeOutputOrigin::MetadataOnly => "MetadataOnly"@,
        DecodeOutputOrigin::Native => "Native"@,
        DecodeOutputOrigin::ConvertedFromArgb => "ConvertedFromArgb"@,
        DecodeOutputOrigin::ConvertedFromNv12 => "ConvertedFromNv12"@,
        DecodeOutputOrigin::ConvertedFromBgra => "ConvertedFromBgra"@,
    }
}

fn decode_output_origin_name_text(value: DecodeOutputOrigin) -> (r: &'static str)
    ensures
        r@ == decode_output_origin_name(value),
{
    match value {
        DecodeOutputOrigin::MetadataOnly => "MetadataOnly",
        DecodeOutputOrigin::Native => "Native",
        DecodeOutputOrigin::ConvertedFromArgb => "ConvertedFromArgb",
        DecodeOutputOrigin::ConvertedFromNv12 => "ConvertedFromNv12",
        DecodeOutputOrigin::ConvertedFromBgra => "ConvertedFromBgra",
    }
}

#[derive(Debug, Clone, Copy, PartialEq, Eq, Structural)]
pub enum RuntimeStatus {
    Available,
    Unavailable,
    NotProbed,
}

/// The name of the variant.
pub open spec fn runtime_status_name(value: RuntimeStatus) -> Seq<char> {
    match value {
        RuntimeStatus::Available => "Available"@,
        RuntimeStatus::Unavailable => "Unavailable"@,
        RuntimeStatus::NotProbed => "NotProbed"@,
    }
}

fn runtime_status_name_text(value: RuntimeStatus) -> (r: &'static str)
    ensures
        r@ == runtime_status_name(value),
{
    match value {
        RuntimeStatus::Available => "Available",
        RuntimeStatus::Unavailable => "Unavailable",
        RuntimeStatus::NotProbed => "NotProbed",
    }
}

/// The name of the variant.
pub open spec fn decode_output_mode_name(value: DecodeOutputMode) -> Seq<char> {
    match value {
        DecodeOutputMode::Metadata => "Metadata"@,
        DecodeOutputMode::Nv12 => "Nv12"@,
        DecodeOutputMode::Rgb24 => "Rgb24"@,
    }
}

fn decode_output_mode_name_text(value: DecodeOutputMode) -> (r: &'static str)
    ensures
        r@ == decode_output_mode_name(value),
{
    match value {
        DecodeOutputMode::Metadata => "Metadata",
        DecodeOutputMode::Nv12 => "Nv12",
        DecodeOutputMode::Rgb24 => "Rgb24",
    }
}

/// The name of the variant.
pub open spec fn encode_input_format_name(value: EncodeInputFormat) -> Seq<char> {
    match value {
        EncodeInputFormat::Argb8888 => "Argb8888"@,
        EncodeInputFormat::Nv12 => "Nv12"@,
    }
}

fn encode_input_format_name_text(value: EncodeInputFormat) -> (r: &'static str)
    ensures
        r@ == encode_input_format_name(value),
{
    match value {
        EncodeInputFormat::Argb8888 => "Argb8888",
        EncodeInputFormat::Nv12 => "Nv12",
    }
}

/// The name of the variant.
pub open spec fn encoded_layout_name(value: EncodedLayout) -> Seq<char> {
    match value {
        EncodedLayout::AnnexB => "AnnexB"@,
        EncodedLayout::Avcc => "Avcc"@,
        EncodedLayout::Hvcc => "Hvcc"@,
        EncodedLayout::Av1 => "Av1"@,
        EncodedLayout::Opaque => "Opaque"@,
    }
}

fn encoded_layout_name_text(value: EncodedLayout) -> (r: &'static str)
    ensures
        r@ == encoded_layout_name(value),
{
    match value {
        EncodedLayout::AnnexB => "AnnexB",
        EncodedLayout::Avcc => "Avcc",
        EncodedLayout::Hvcc => "Hvcc",
        EncodedLayout::Av1 => "Av1",
        EncodedLayout::Opaque => "Opaque",
    }
}

#[derive(Debug, Clone, Copy, PartialEq, Eq, Structural)]
pub enum StreamingMode {
    PushReap,
    FlushOnly,
}

#[derive(Debug, Clone, Copy, PartialEq, Eq, Structural)]
pub enum FallbackPolicy {
    NoFallback,
    HardwareThenSoftware,
    OsManaged,
}

#[derive(Debug, Clone, Copy, PartialEq, Eq, Structural)]
pub struct DecodeOutputCapability {
    pub mode: DecodeOutputMode,
    pub origin: DecodeOutputOrigin,
}

#[derive(Debug, Clone, Copy, PartialEq, Eq, Structural)]
pub struct DimensionConstraints {
    pub min_width: u32,
    pub min_height: u32,
    pub width_alignment: u32,
    pub height_alignment: u32,
}

impl Default for DimensionConstraints {
    fn default() -> (r: Self)
        ensures
            r.min_width == 1,
            r.min_height == 1,
            r.width_alignment == 1,
            r.height_alignment == 1,
    {
        DimensionConstraints { min_width: 1, min_height: 1, width_alignment: 1, height_alignment: 1 }
    }
}

#[derive(Debug, Clone, PartialEq, Eq)]
pub struct DecodeCapability {
    pub supported: bool,
    pub output_modes: Vec<DecodeOutputCapability>,
    pub streaming_mode: StreamingMode,
    pub fallback_policy: FallbackPolicy,
    pub requires_side_data: bool,
    pub dimension_constraints: DimensionConstraints,
}

#[derive(Debug, Clone, PartialEq, Eq)]
pub struct EncodeCapability {
    pub supported: bool,
    pub input_formats: Vec<EncodeInputFormat>,
    pub encoded_layouts: Vec<EncodedLayout>,
    pub streaming_mode: StreamingMode,
    pub fallback_policy: FallbackPolicy,
    pub dimension_constraints: DimensionConstraints,
}

#[derive(Debug, Clone, PartialEq, Eq)]
pub struct CapabilityContract {
    pub decode: DecodeCapability,
    pub encode: EncodeCapability,
}

#[derive(Debug, Clone, PartialEq, Eq)]
pub struct RuntimeCapability {
    pub status: RuntimeStatus,
    pub hardware_acceleration: bool,
    pub reason: Option<String>,
}

#[derive(Debug, Clone, PartialEq, Eq)]
pub struct CapabilityReport {
    pub codec: Codec,
    pub contract: CapabilityContract,
    pub runtime: RuntimeCapability,
}

/// An output capability as it is listed.
pub open spec fn output_capability_text(value: DecodeOutputCapability) -> Seq<char> {
    "DecodeOutputCapability { mode: "@ + decode_output_mode_name(value.mode) + ", origin: "@
        + decode_output_origin_name(value.origin) + " }"@
}

pub open spec fn bracketed(parts: Seq<Seq<char>>) -> Seq<char> {
    "["@ + joined(parts, ", "@) + "]"@
}

fn bracketed_text(parts: &Vec<String>) -> (r: String)
    ensures
        r@ == bracketed(views(parts@)),
{
    String::from_str("[").concat(join_text(parts, ", ").as_str()).concat("]")
}

impl CapabilityReport {
    pub fn supports_decode_output_mode(&self, mode: DecodeOutputMode) -> (r: bool)
        ensures
            r == exists|i: int|
                0 <= i < self.contract.decode.output_modes@.len()
                    && (#[trigger] self.contract.decode.output_modes@[i]).mode == mode,
    {
        let list = &self.contract.decode.output_modes;
        let mut i: usize = 0;
        while i < list.len()
            invariant
                list@ == self.contract.decode.output_modes@,
                i <= list.len(),
                forall|k: int| 0 <= k < i ==> (#[trigger] list@[k]).mode != mode,
            decreases list.len() - i,
        {
            if list[i].mode == mode {
                assert(self.contract.decode.output_modes@[i as int].mode == mode);
                return true;
            }
            i = i + 1;
        }
        false
    }

    pub fn supports_encode_input_format(&self, format: EncodeInputFormat) -> (r: bool)
        ensures
            r == self.contract.encode.input_formats@.contains(format),
    {
        let list = &self.contract.encode.input_formats;
        let mut i: usize = 0;
        while i < list.len()
            invariant
                list@ == self.contract.encode.input_formats@,
                i <= list.len(),
                forall|k: int| 0 <= k < i ==> list@[k] != format,
            decreases list.len() - i,
        {
            if list[i] == format {
                assert(list@[i as int] == format);
                return true;
            }
            i = i + 1;
        }
        false
    }

    pub fn supports_encoded_layout(&self, layout: EncodedLayout) -> (r: bool)
        ensures
            r == self.contract.encode.encoded_layouts@.contains(layout),
    {
        let list = &self.contract.encode.encoded_layouts;
        let mut i: usize = 0;
        while i < list.len()
            invariant
                list@ == self.contract.encode.encoded_layouts@,
                i <= list.len(),
                forall|k: int| 0 <= k < i ==> list@[k] != layout,
            decreases list.len() - i,
        {
            if list[i] == layout {
                assert(list@[i as int] == layout);
                return true;
            }
            i = i + 1;
        }
        false
    }

    pub open spec fn text(self) -> Seq<char> {
        "CapabilityReport(codec="@ + self.codec.text() + ", decode_supported="@ + bool_chars(
            self.contract.decode.supported,
        ) + ", encode_supported="@ + bool_chars(self.contract.encode.supported) + ", hw_accel="@
            + bool_chars(self.runtime.hardware_acceleration) + ", runtime="@ + runtime_status_name(
            self.runtime.status,
        ) + ", decode_outputs="@ + bracketed(
            Seq::new(
                self.contract.decode.output_modes@.len(),
                |i: int| output_capability_text(self.contract.decode.output_modes@[i]),
            ),
        ) + ", encode_inputs="@ + bracketed(
            Seq::new(
                self.contract.encode.input_formats@.len(),
                |i: int| encode_input_format_name(self.contract.encode.input_formats@[i]),
            ),
        ) + ", encoded_layouts="@ + bracketed(
            Seq::new(
                self.contract.encode.encoded_layouts@.len(),
                |i: int| encoded_layout_name(self.contract.encode.encoded_layouts@[i]),
            ),
        ) + ")"@
    }

    pub fn to_string(&self) -> (r: String)
        ensures
            r@ == self.text(),
    {
        let modes = &self.contract.decode.output_modes;
        let formats = &self.contract.encode.input_formats;
        let layouts = &self.contract.encode.encoded_layouts;
        let mut mode_texts: Vec<String> = Vec::new();
        let mut i: usize = 0;
        while i < modes.len()
            invariant
                i <= modes.len(),
                mode_texts.len() == i,
                forall|k: int|
                    0 <= k < i ==> (#[trigger] mode_texts@[k])@ == output_capability_text(modes@[k]),
            decreases modes.len() - i,
        {
            mode_texts.push(
                String::from_str("DecodeOutputCapability { mode: ").concat(
                    decode_output_mode_name_text(modes[i].mode),
                ).concat(", origin: ").concat(
                    decode_output_origin_name_text(modes[i].origin),
                ).concat(" }"),
            );
            i = i + 1;
        }
        let mut format_texts: Vec<String> = Vec::new();
        let mut j: usize = 0;
        while j < formats.len()
            invariant
                j <= formats.len(),
                format_texts.len() == j,
                forall|k: int|
                    0 <= k < j ==> (#[trigger] format_texts@[k])@ == encode_input_format_name(
                        formats@[k],
                    ),
            decreases formats.len() - j,
        {
            format_texts.push(String::from_str(encode_input_format_name_text(formats[j])));
            j = j + 1;
        }
        let mut layout_texts: Vec<String> = Vec::new();
        let mut l: usize = 0;
        while l < layouts.len()
            invariant
                l <= layouts.len(),
                layout_texts.len() == l,
                forall|k: int|
                    0 <= k < l ==> (#[trigger] layout_texts@[k])@ == encoded_layout_name(layouts@[k]),
            decreases layouts.len() - l,
        {
            layout_texts.push(String::from_str(encoded_layout_name_text(layouts[l])));
            l = l + 1;
        }
        assert(views(mode_texts@) =~= Seq::new(
            modes@.len(),
            |k: int| output_capability_text(modes@[k]),
        ));
        assert(views(format_texts@) =~= Seq::new(
            formats@.len(),
            |k: int| encode_input_format_name(formats@[k]),
        ));
        assert(views(layout_texts@) =~= Seq::new(
            layouts@.len(),
            |k: int| encoded_layout_name(layouts@[k]),
        ));
        String::from_str("CapabilityReport(codec=").concat(self.codec.to_string().as_str()).concat(
            ", decode_supported=",
        ).concat(bool_text(self.contract.decode.supported)).concat(", encode_supported=").concat(
            bool_text(self.contract.encode.supported),
        ).concat(", hw_accel=").concat(bool_text(self.runtime.hardware_acceleration)).concat(
            ", runtime=",
        ).concat(runtime_status_name_text(self.runtime.status)).concat(", decode_outputs=").concat(
            bracketed_text(&mode_texts).as_str(),
        ).concat(", encode_inputs=").concat(bracketed_text(&format_texts).as_str()).concat(
            ", encoded_layouts=",
        ).concat(bracketed_text(&layout_texts).as_str()).concat(")")
    }
}

} // verus!
