//! Settings that bring the HEVC encode probe closer to what FFmpeg records: their values,
//! the names by which they are given and the labels by which they are shown.

use super::modes::HevcEncodeProbePictureResourceExtentMode;
use crate::text::{normalize_option, normalized, same_text};
use vstd::prelude::*;
use vstd::string::*;

verus! {

/// How usability information of a sample is treated.
#[derive(Debug, Clone, Copy, PartialEq, Eq, Structural)]
pub enum HevcEncodeVuiSafety {
    /// A sample that is given is used without announcing its usability information.
    Auto,
    /// Usability information stays as it is.
    Preserve,
    /// Usability information is never announced.
    ForceOff,
}

impl HevcEncodeVuiSafety {
    pub open spec fn label(self) -> Seq<char> {
        match self {
            HevcEncodeVuiSafety::Auto => "auto"@,
            HevcEncodeVuiSafety::Preserve => "preserve"@,
            HevcEncodeVuiSafety::ForceOff => "force-off"@,
        }
    }
}

pub fn hevc_encode_vui_safety_label(mode: HevcEncodeVuiSafety) -> (r: &'static str)
    ensures
        r@ == mode.label(),
{
    match mode {
        HevcEncodeVuiSafety::Auto => "auto",
        HevcEncodeVuiSafety::Preserve => "preserve",
        HevcEncodeVuiSafety::ForceOff => "force-off",
    }
}

/// The value that a normalised name stands for. Unknown names mean the default.
pub open spec fn vui_safety_named(name: Option<Seq<char>>) -> HevcEncodeVuiSafety {
    match name {
        None => HevcEncodeVuiSafety::Auto,
        Some(n) => if n == "preserve"@ {
            HevcEncodeVuiSafety::Preserve
        } else if n == "force-off"@ {
            HevcEncodeVuiSafety::ForceOff
        } else {
            HevcEncodeVuiSafety::Auto
        },
    }
}

pub fn parse_hevc_encode_vui_safety(mode: Option<&str>) -> (r: HevcEncodeVuiSafety)
    ensures
        r == vui_safety_named(normalized(mode)),
{
    match normalize_option(mode) {
        None => HevcEncodeVuiSafety::Auto,
        Some(text) => {
            let n = text.as_str();
            if same_text(n, "preserve") {
                HevcEncodeVuiSafety::Preserve
            } else if same_text(n, "force-off") {
                HevcEncodeVuiSafety::ForceOff
            } else {
                HevcEncodeVuiSafety::Auto
            }
        },
    }
}

/// Every label names its own value.
pub proof fn law_vui_safety_labels(mode: HevcEncodeVuiSafety)
    ensures
        vui_safety_named(Some(mode.label())) == mode,
{
    let n = mode.label();
    match mode {
        HevcEncodeVuiSafety::Auto => {
            assert(n.len() != "preserve"@.len()
                && n.len() != "force-off"@.len()) by {
                reveal_strlit("auto");
                reveal_strlit("preserve");
                reveal_strlit("force-off");
            }
        },
        HevcEncodeVuiSafety::Preserve => {},
        HevcEncodeVuiSafety::ForceOff => {
            assert(n.len() != "preserve"@.len()) by {
                reveal_strlit("force-off");
                reveal_strlit("preserve");
            }
        },
    }
}

/// Whether the reference image is brought to its layout by a barrier.
#[derive(Debug, Clone, Copy, PartialEq, Eq, Structural)]
pub enum HevcEncodeDpbBarrierMode {
    With,
    NoBarrier,
}

impl HevcEncodeDpbBarrierMode {
    pub open spec fn label(self) -> Seq<char> {
        match self {
            HevcEncodeDpbBarrierMode::With => "with"@,
            HevcEncodeDpbBarrierMode::NoBarrier => "none"@,
        }
    }
}

pub fn hevc_encode_dpb_barrier_mode_label(mode: HevcEncodeDpbBarrierMode) -> (r: &'static str)
    ensures
        r@ == mode.label(),
{
    match mode {
        HevcEncodeDpbBarrierMode::With => "with",
        HevcEncodeDpbBarrierMode::NoBarrier => "none",
    }
}

/// The value that a normalised name stands for. Unknown names mean the default.
pub open spec fn dpb_barrier_mode_named(name: Option<Seq<char>>) -> HevcEncodeDpbBarrierMode {
    match name {
        None => HevcEncodeDpbBarrierMode::With,
        Some(n) => if n == "none"@ {
            HevcEncodeDpbBarrierMode::NoBarrier
        } else {
            HevcEncodeDpbBarrierMode::With
        },
    }
}

pub fn parse_hevc_encode_dpb_barrier_mode(mode: Option<&str>) -> (r: HevcEncodeDpbBarrierMode)
    ensures
        r == dpb_barrier_mode_named(normalized(mode)),
{
    match normalize_option(mode) {
        None => HevcEncodeDpbBarrierMode::With,
        Some(text) => {
            let n = text.as_str();
            if same_text(n, "none") {
                HevcEncodeDpbBarrierMode::NoBarrier
            } else {
                HevcEncodeDpbBarrierMode::With
            }
        },
    }
}

/// Every label names its own value.
pub proof fn law_dpb_barrier_mode_labels(mode: HevcEncodeDpbBarrierMode)
    ensures
        dpb_barrier_mode_named(Some(mode.label())) == mode,
{
    let n = mode.label();
    match mode {
        HevcEncodeDpbBarrierMode::With => {
            assert(n[0] != "none"@[0]) by {
                reveal_strlit("with");
                reveal_strlit("none");
            }
        },
        HevcEncodeDpbBarrierMode::NoBarrier => {},
    }
}

/// What the list of reference slots points to where it is empty.
#[derive(Debug, Clone, Copy, PartialEq, Eq, Structural)]
pub enum HevcEncodeReferenceSlotPointerMode {
    EmptySlice,
    Ffmpeg,
}

impl HevcEncodeReferenceSlotPointerMode {
    pub open spec fn label(self) -> Seq<char> {
        match self {
            HevcEncodeReferenceSlotPointerMode::EmptySlice => "empty-slice"@,
            HevcEncodeReferenceSlotPointerMode::Ffmpeg => "ffmpeg"@,
        }
    }
}

pub fn hevc_encode_reference_slot_pointer_mode_label(mode: HevcEncodeReferenceSlotPointerMode) -> (r: &'static str)
    ensures
        r@ == mode.label(),
{
    match mode {
        HevcEncodeReferenceSlotPointerMode::EmptySlice => "empty-slice",
        HevcEncodeReferenceSlotPointerMode::Ffmpeg => "ffmpeg",
    }
}

/// The value that a normalised name stands for. Unknown names mean the default.
pub open spec fn reference_slot_pointer_mode_named(name: Option<Seq<char>>) -> HevcEncodeReferenceSlotPointerMode {
    match name {
        None => HevcEncodeReferenceSlotPointerMode::EmptySlice,
        Some(n) => if n == "ffmpeg"@ {
            HevcEncodeReferenceSlotPointerMode::Ffmpeg
        } else {
            HevcEncodeReferenceSlotPointerMode::EmptySlice
        },
    }
}

pub fn parse_hevc_encode_reference_slot_pointer_mode(mode: Option<&str>) -> (r: HevcEncodeReferenceSlotPointerMode)
    ensures
        r == reference_slot_pointer_mode_named(normalized(mode)),
{
    match normalize_option(mode) {
        None => HevcEncodeReferenceSlotPointerMode::EmptySlice,
        Some(text) => {
            let n = text.as_str();
            if same_text(n, "ffmpeg") {
                HevcEncodeReferenceSlotPointerMode::Ffmpeg
            } else {
                HevcEncodeReferenceSlotPointerMode::EmptySlice
            }
        },
    }
}

/// Every label names its own value.
pub proof fn law_reference_slot_pointer_mode_labels(mode: HevcEncodeReferenceSlotPointerMode)
    ensures
        reference_slot_pointer_mode_named(Some(mode.label())) == mode,
{
    let n = mode.label();
    match mode {
        HevcEncodeReferenceSlotPointerMode::EmptySlice => {
            assert(n.len() != "ffmpeg"@.len()) by {
                reveal_strlit("empty-slice");
                reveal_strlit("ffmpeg");
            }
        },
        HevcEncodeReferenceSlotPointerMode::Ffmpeg => {},
    }
}

/// Whether a session is created with the greatest level of the codec.
#[derive(Debug, Clone, Copy, PartialEq, Eq, Structural)]
pub enum HevcEncodeSessionCreateInfoMode {
    WithMaxLevel,
    Without,
}

impl HevcEncodeSessionCreateInfoMode {
    pub open spec fn label(self) -> Seq<char> {
        match self {
            HevcEncodeSessionCreateInfoMode::WithMaxLevel => "with-max-level"@,
            HevcEncodeSessionCreateInfoMode::Without => "without"@,
        }
    }
}

pub fn hevc_encode_session_create_info_mode_label(mode: HevcEncodeSessionCreateInfoMode) -> (r: &'static str)
    ensures
        r@ == mode.label(),
{
    match mode {
        HevcEncodeSessionCreateInfoMode::WithMaxLevel => "with-max-level",
        HevcEncodeSessionCreateInfoMode::Without => "without",
    }
}

/// The value that a normalised name stands for. Unknown names mean the default.
pub open spec fn session_create_info_mode_named(name: Option<Seq<char>>) -> HevcEncodeSessionCreateInfoMode {
    match name {
        None => HevcEncodeSessionCreateInfoMode::WithMaxLevel,
        Some(n) => if n == "without"@ {
            HevcEncodeSessionCreateInfoMode::Without
        } else {
            HevcEncodeSessionCreateInfoMode::WithMaxLevel
        },
    }
}

pub fn parse_hevc_encode_session_create_info_mode(mode: Option<&str>) -> (r: HevcEncodeSessionCreateInfoMode)
    ensures
        r == session_create_info_mode_named(normalized(mode)),
{
    match normalize_option(mode) {
        None => HevcEncodeSessionCreateInfoMode::WithMaxLevel,
        Some(text) => {
            let n = text.as_str();
            if same_text(n, "without") {
                HevcEncodeSessionCreateInfoMode::Without
            } else {
                HevcEncodeSessionCreateInfoMode::WithMaxLevel
            }
        },
    }
}

/// Every label names its own value.
pub proof fn law_session_create_info_mode_labels(mode: HevcEncodeSessionCreateInfoMode)
    ensures
        session_create_info_mode_named(Some(mode.label())) == mode,
{
    let n = mode.label();
    match mode {
        HevcEncodeSessionCreateInfoMode::WithMaxLevel => {
            assert(n.len() != "without"@.len()) by {
                reveal_strlit("with-max-level");
                reveal_strlit("without");
            }
        },
        HevcEncodeSessionCreateInfoMode::Without => {},
    }
}

/// Whether the rate control is given when a coding scope is opened.
#[derive(Debug, Clone, Copy, PartialEq, Eq, Structural)]
pub enum HevcEncodeBeginNextMode {
    NoNext,
    RateControl,
}

impl HevcEncodeBeginNextMode {
    pub open spec fn label(self) -> Seq<char> {
        match self {
            HevcEncodeBeginNextMode::NoNext => "none"@,
            HevcEncodeBeginNextMode::RateControl => "rate-control"@,
        }
    }
}

pub fn hevc_encode_begin_next_mode_label(mode: HevcEncodeBeginNextMode) -> (r: &'static str)
    ensures
        r@ == mode.label(),
{
    match mode {
        HevcEncodeBeginNextMode::NoNext => "none",
        HevcEncodeBeginNextMode::RateControl => "rate-control",
    }
}

/// The value that a normalised name stands for. Unknown names mean the default.
pub open spec fn begin_next_mode_named(name: Option<Seq<char>>) -> HevcEncodeBeginNextMode {
    match name {
        None => HevcEncodeBeginNextMode::NoNext,
        Some(n) => if n == "rate-control"@ || n == "ffmpeg"@ {
            HevcEncodeBeginNextMode::RateControl
        } else {
            HevcEncodeBeginNextMode::NoNext
        },
    }
}

pub fn parse_hevc_encode_begin_next_mode(mode: Option<&str>) -> (r: HevcEncodeBeginNextMode)
    ensures
        r == begin_next_mode_named(normalized(mode)),
{
    match normalize_option(mode) {
        None => HevcEncodeBeginNextMode::NoNext,
        Some(text) => {
            let n = text.as_str();
            if same_text(n, "rate-control") || same_text(n, "ffmpeg") {
                HevcEncodeBeginNextMode::RateControl
            } else {
                HevcEncodeBeginNextMode::NoNext
            }
        },
    }
}

/// Every label names its own value.
pub proof fn law_begin_next_mode_labels(mode: HevcEncodeBeginNextMode)
    ensures
        begin_next_mode_named(Some(mode.label())) == mode,
{
    let n = mode.label();
    match mode {
        HevcEncodeBeginNextMode::NoNext => {
            assert(n.len() != "rate-control"@.len()
                && n.len() != "ffmpeg"@.len()) by {
                reveal_strlit("none");
                reveal_strlit("rate-control");
                reveal_strlit("ffmpeg");
            }
        },
        HevcEncodeBeginNextMode::RateControl => {},
    }
}

/// How much of the buffer is encoded into.
#[derive(Debug, Clone, Copy, PartialEq, Eq, Structural)]
pub enum HevcEncodeDstRangeMode {
    /// All of it.
    Full,
    /// All but one alignment at its end.
    ReserveAlignment,
}

impl HevcEncodeDstRangeMode {
    pub open spec fn label(self) -> Seq<char> {
        match self {
            HevcEncodeDstRangeMode::Full => "full"@,
            HevcEncodeDstRangeMode::ReserveAlignment => "ffmpeg-reserve-align"@,
        }
    }
}

pub fn hevc_encode_dst_range_mode_label(mode: HevcEncodeDstRangeMode) -> (r: &'static str)
    ensures
        r@ == mode.label(),
{
    match mode {
        HevcEncodeDstRangeMode::Full => "full",
        HevcEncodeDstRangeMode::ReserveAlignment => "ffmpeg-reserve-align",
    }
}

/// The value that a normalised name stands for. Unknown names mean the default.
pub open spec fn dst_range_mode_named(name: Option<Seq<char>>) -> HevcEncodeDstRangeMode {
    match name {
        None => HevcEncodeDstRangeMode::Full,
        Some(n) => if n == "ffmpeg-reserve-align"@ || n == "ffmpeg"@ {
            HevcEncodeDstRangeMode::ReserveAlignment
        } else {
            HevcEncodeDstRangeMode::Full
        },
    }
}

pub fn parse_hevc_encode_dst_range_mode(mode: Option<&str>) -> (r: HevcEncodeDstRangeMode)
    ensures
        r == dst_range_mode_named(normalized(mode)),
{
    match normalize_option(mode) {
        None => HevcEncodeDstRangeMode::Full,
        Some(text) => {
            let n = text.as_str();
            if same_text(n, "ffmpeg-reserve-align") || same_text(n, "ffmpeg") {
                HevcEncodeDstRangeMode::ReserveAlignment
            } else {
                HevcEncodeDstRangeMode::Full
            }
        },
    }
}

/// Every label names its own value.
pub proof fn law_dst_range_mode_labels(mode: HevcEncodeDstRangeMode)
    ensures
        dst_range_mode_named(Some(mode.label())) == mode,
{
    let n = mode.label();
    match mode {
        HevcEncodeDstRangeMode::Full => {
            assert(n.len() != "ffmpeg-reserve-align"@.len()
                && n.len() != "ffmpeg"@.len()) by {
                reveal_strlit("full");
                reveal_strlit("ffmpeg-reserve-align");
                reveal_strlit("ffmpeg");
            }
        },
        HevcEncodeDstRangeMode::ReserveAlignment => {},
    }
}

/// The picture size that the sequence parameter set tells.
#[derive(Debug, Clone, Copy, PartialEq, Eq, Structural)]
pub enum HevcEncodeParameterSizeMode {
    /// That of the sample.
    Sample,
    /// That of the picture.
    Coded,
}

impl HevcEncodeParameterSizeMode {
    pub open spec fn label(self) -> Seq<char> {
        match self {
            HevcEncodeParameterSizeMode::Sample => "sample"@,
            HevcEncodeParameterSizeMode::Coded => "coded"@,
        }
    }
}

pub fn hevc_encode_parameter_size_mode_label(mode: HevcEncodeParameterSizeMode) -> (r: &'static str)
    ensures
        r@ == mode.label(),
{
    match mode {
        HevcEncodeParameterSizeMode::Sample => "sample",
        HevcEncodeParameterSizeMode::Coded => "coded",
    }
}

/// The value that a normalised name stands for. Unknown names mean the default.
pub open spec fn parameter_size_mode_named(name: Option<Seq<char>>) -> HevcEncodeParameterSizeMode {
    match name {
        None => HevcEncodeParameterSizeMode::Sample,
        Some(n) => if n == "coded"@ || n == "ffmpeg"@ {
            HevcEncodeParameterSizeMode::Coded
        } else {
            HevcEncodeParameterSizeMode::Sample
        },
    }
}

pub fn parse_hevc_encode_parameter_size_mode(mode: Option<&str>) -> (r: HevcEncodeParameterSizeMode)
    ensures
        r == parameter_size_mode_named(normalized(mode)),
{
    match normalize_option(mode) {
        None => HevcEncodeParameterSizeMode::Sample,
        Some(text) => {
            let n = text.as_str();
            if same_text(n, "coded") || same_text(n, "ffmpeg") {
                HevcEncodeParameterSizeMode::Coded
            } else {
                HevcEncodeParameterSizeMode::Sample
            }
        },
    }
}

/// Every label names its own value.
pub proof fn law_parameter_size_mode_labels(mode: HevcEncodeParameterSizeMode)
    ensures
        parameter_size_mode_named(Some(mode.label())) == mode,
{
    let n = mode.label();
    match mode {
        HevcEncodeParameterSizeMode::Sample => {
            assert(n.len() != "coded"@.len()
                && n[0] != "ffmpeg"@[0]) by {
                reveal_strlit("sample");
                reveal_strlit("coded");
                reveal_strlit("ffmpeg");
            }
        },
        HevcEncodeParameterSizeMode::Coded => {},
    }
}

/// Whether image views have an identity conversion of colours.
#[derive(Debug, Clone, Copy, PartialEq, Eq, Structural)]
pub enum HevcEncodeImageViewMode {
    YcbcrConversion,
    NoYcbcr,
}

impl HevcEncodeImageViewMode {
    pub open spec fn label(self) -> Seq<char> {
        match self {
            HevcEncodeImageViewMode::YcbcrConversion => "ycbcr-conversion"@,
            HevcEncodeImageViewMode::NoYcbcr => "no-ycbcr"@,
        }
    }
}

pub fn hevc_encode_image_view_mode_label(mode: HevcEncodeImageViewMode) -> (r: &'static str)
    ensures
        r@ == mode.label(),
{
    match mode {
        HevcEncodeImageViewMode::YcbcrConversion => "ycbcr-conversion",
        HevcEncodeImageViewMode::NoYcbcr => "no-ycbcr",
    }
}

/// The value that a normalised name stands for. Unknown names mean the default.
pub open spec fn image_view_mode_named(name: Option<Seq<char>>) -> HevcEncodeImageViewMode {
    match name {
        None => HevcEncodeImageViewMode::YcbcrConversion,
        Some(n) => if n == "no-ycbcr"@ {
            HevcEncodeImageViewMode::NoYcbcr
        } else {
            HevcEncodeImageViewMode::YcbcrConversion
        },
    }
}

pub fn parse_hevc_encode_image_view_mode(mode: Option<&str>) -> (r: HevcEncodeImageViewMode)
    ensures
        r == image_view_mode_named(normalized(mode)),
{
    match normalize_option(mode) {
        None => HevcEncodeImageViewMode::YcbcrConversion,
        Some(text) => {
            let n = text.as_str();
            if same_text(n, "no-ycbcr") {
                HevcEncodeImageViewMode::NoYcbcr
            } else {
                HevcEncodeImageViewMode::YcbcrConversion
            }
        },
    }
}

/// Every label names its own value.
pub proof fn law_image_view_mode_labels(mode: HevcEncodeImageViewMode)
    ensures
        image_view_mode_named(Some(mode.label())) == mode,
{
    let n = mode.label();
    match mode {
        HevcEncodeImageViewMode::YcbcrConversion => {
            assert(n.len() != "no-ycbcr"@.len()) by {
                reveal_strlit("ycbcr-conversion");
                reveal_strlit("no-ycbcr");
            }
        },
        HevcEncodeImageViewMode::NoYcbcr => {},
    }
}

/// What stands in the buffer before the encoded picture.
#[derive(Debug, Clone, Copy, PartialEq, Eq, Structural)]
pub enum HevcEncodeDstPrefixMode {
    /// Nothing is written.
    Untouched,
    /// Zeros.
    Zero,
    /// The start of the sample.
    ParameterSample,
}

impl HevcEncodeDstPrefixMode {
    pub open spec fn label(self) -> Seq<char> {
        match self {
            HevcEncodeDstPrefixMode::Untouched => "none"@,
            HevcEncodeDstPrefixMode::Zero => "zero"@,
            HevcEncodeDstPrefixMode::ParameterSample => "parameter-sample"@,
        }
    }
}

pub fn hevc_encode_dst_prefix_mode_label(mode: HevcEncodeDstPrefixMode) -> (r: &'static str)
    ensures
        r@ == mode.label(),
{
    match mode {
        HevcEncodeDstPrefixMode::Untouched => "none",
        HevcEncodeDstPrefixMode::Zero => "zero",
        HevcEncodeDstPrefixMode::ParameterSample => "parameter-sample",
    }
}

/// The value that a normalised name stands for. Unknown names mean the default.
pub open spec fn dst_prefix_mode_named(name: Option<Seq<char>>) -> HevcEncodeDstPrefixMode {
    match name {
        None => HevcEncodeDstPrefixMode::Untouched,
        Some(n) => if n == "zero"@ {
            HevcEncodeDstPrefixMode::Zero
        } else if n == "parameter-sample"@ || n == "ffmpeg"@ {
            HevcEncodeDstPrefixMode::ParameterSample
        } else {
            HevcEncodeDstPrefixMode::Untouched
        },
    }
}

pub fn parse_hevc_encode_dst_prefix_mode(mode: Option<&str>) -> (r: HevcEncodeDstPrefixMode)
    ensures
        r == dst_prefix_mode_named(normalized(mode)),
{
    match normalize_option(mode) {
        None => HevcEncodeDstPrefixMode::Untouched,
        Some(text) => {
            let n = text.as_str();
            if same_text(n, "zero") {
                HevcEncodeDstPrefixMode::Zero
            } else if same_text(n, "parameter-sample") || same_text(n, "ffmpeg") {
                HevcEncodeDstPrefixMode::ParameterSample
            } else {
                HevcEncodeDstPrefixMode::Untouched
            }
        },
    }
}

/// Every label names its own value.
pub proof fn law_dst_prefix_mode_labels(mode: HevcEncodeDstPrefixMode)
    ensures
        dst_prefix_mode_named(Some(mode.label())) == mode,
{
    let n = mode.label();
    match mode {
        HevcEncodeDstPrefixMode::Untouched => {
            assert(n[0] != "zero"@[0]
                && n.len() != "parameter-sample"@.len()
                && n.len() != "ffmpeg"@.len()) by {
                reveal_strlit("none");
                reveal_strlit("zero");
                reveal_strlit("parameter-sample");
                reveal_strlit("ffmpeg");
            }
        },
        HevcEncodeDstPrefixMode::Zero => {},
        HevcEncodeDstPrefixMode::ParameterSample => {
            assert(n.len() != "zero"@.len()) by {
                reveal_strlit("parameter-sample");
                reveal_strlit("zero");
            }
        },
    }
}

/// The size of the source picture. Without a setting it is that of the image.
pub open spec fn source_extent_mode_named(
    name: Option<Seq<char>>,
) -> HevcEncodeProbePictureResourceExtentMode {
    if name == Some("coded"@) {
        HevcEncodeProbePictureResourceExtentMode::Coded
    } else {
        HevcEncodeProbePictureResourceExtentMode::ImageAligned
    }
}

pub fn parse_hevc_encode_source_extent_mode(mode: Option<&str>) -> (r:
    HevcEncodeProbePictureResourceExtentMode)
    ensures
        r == source_extent_mode_named(normalized(mode)),
{
    match normalize_option(mode) {
        None => HevcEncodeProbePictureResourceExtentMode::ImageAligned,
        Some(text) => {
            if same_text(text.as_str(), "coded") {
                HevcEncodeProbePictureResourceExtentMode::Coded
            } else {
                HevcEncodeProbePictureResourceExtentMode::ImageAligned
            }
        },
    }
}

/// What is set by hand for a probe beside its modes.
#[derive(Debug, Clone, Copy, PartialEq, Eq, Structural)]
pub struct HevcEncodeParitySettings {
    pub source_extent: HevcEncodeProbePictureResourceExtentMode,
    pub dpb_barrier: HevcEncodeDpbBarrierMode,
    pub reference_slot_pointer: HevcEncodeReferenceSlotPointerMode,
    pub begin_next: HevcEncodeBeginNextMode,
    pub dst_range: HevcEncodeDstRangeMode,
    pub image_view: HevcEncodeImageViewMode,
    /// The bytes before the encoded picture.
    pub dst_prefix_bytes: u64,
    /// The quantizer without rate control, from 0 to 51; others have no effect.
    pub constant_qp: Option<u32>,
    pub quality_level: Option<u32>,
}

impl Default for HevcEncodeParitySettings {
    fn default() -> (r: Self)
        ensures
            r == (HevcEncodeParitySettings {
                source_extent: HevcEncodeProbePictureResourceExtentMode::ImageAligned,
                dpb_barrier: HevcEncodeDpbBarrierMode::With,
                reference_slot_pointer: HevcEncodeReferenceSlotPointerMode::EmptySlice,
                begin_next: HevcEncodeBeginNextMode::NoNext,
                dst_range: HevcEncodeDstRangeMode::Full,
                image_view: HevcEncodeImageViewMode::YcbcrConversion,
                dst_prefix_bytes: 0,
                constant_qp: None,
                quality_level: None,
            }),
    {
        HevcEncodeParitySettings {
            source_extent: HevcEncodeProbePictureResourceExtentMode::ImageAligned,
            dpb_barrier: HevcEncodeDpbBarrierMode::With,
            reference_slot_pointer: HevcEncodeReferenceSlotPointerMode::EmptySlice,
            begin_next: HevcEncodeBeginNextMode::NoNext,
            dst_range: HevcEncodeDstRangeMode::Full,
            image_view: HevcEncodeImageViewMode::YcbcrConversion,
            dst_prefix_bytes: 0,
            constant_qp: None,
            quality_level: None,
        }
    }
}

/// What is written before the encoded picture, if anything is: zeros, or the start of
/// the sample with zeros behind it where it is too short.
pub open spec fn dst_prefix(mode: HevcEncodeDstPrefixMode, len: nat, sample: Seq<u8>) -> Option<
    Seq<u8>,
> {
    match mode {
        HevcEncodeDstPrefixMode::Untouched => None,
        HevcEncodeDstPrefixMode::Zero => Some(Seq::new(len, |i: int| 0u8)),
        HevcEncodeDstPrefixMode::ParameterSample => Some(
            Seq::new(len, |i: int| if i < sample.len() { sample[i] } else { 0u8 }),
        ),
    }
}

pub fn hevc_encode_dst_prefix(mode: HevcEncodeDstPrefixMode, len: usize, sample: &[u8]) -> (r:
    Option<Vec<u8>>)
    ensures
        match dst_prefix(mode, len as nat, sample@) {
            Some(bytes) => r matches Some(found) && found@ == bytes,
            None => r is None,
        },
{
    let with_sample: bool = match mode {
        HevcEncodeDstPrefixMode::Untouched => {
            return None;
        },
        HevcEncodeDstPrefixMode::Zero => false,
        HevcEncodeDstPrefixMode::ParameterSample => true,
    };
    let mut out: Vec<u8> = Vec::new();
    while out.len() < len
        invariant
            out@.len() <= len,
            mode != HevcEncodeDstPrefixMode::Untouched,
            with_sample == (mode == HevcEncodeDstPrefixMode::ParameterSample),
            forall|k: int|
                0 <= k < out@.len() ==> #[trigger] out@[k] == (if with_sample && k < sample@.len() {
                    sample@[k]
                } else {
                    0u8
                }),
        decreases len - out.len(),
    {
        let k: usize = out.len();
        if with_sample && k < sample.len() {
            out.push(sample[k]);
        } else {
            out.push(0);
        }
    }
    assert(out@ =~= dst_prefix(mode, len as nat, sample@)->0);
    Some(out)
}

} // verus!
