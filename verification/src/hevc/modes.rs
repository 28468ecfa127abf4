//! Settings of the HEVC encode probe: their values, the names by which they are given
//! and the labels by which they are shown.

use crate::text::{normalize_option, normalized, same_text};
use vstd::prelude::*;
use vstd::string::*;

verus! {

/// Which parameter sets a session is given, and how they are altered.
#[derive(Debug, Clone, Copy, PartialEq, Eq, Structural)]
pub enum HevcEncodeParameterMode {
    Sample,
    SampleNoAddInfo,
    SampleVpsOnly,
    SampleSpsOnly,
    SampleSpsNoVui,
    SampleSpsVuiFlagOff,
    SampleSpsNoVuiFlagOn,
    SampleSpsNoRps,
    SampleSpsSafeFlags,
    SampleSpsLevel,
    SampleSpsSubLayerOrdering,
    SampleSpsLevelOrdering,
    SamplePpsOnly,
    EmptyTemplate,
}

impl HevcEncodeParameterMode {
    pub open spec fn label(self) -> Seq<char> {
        match self {
            HevcEncodeParameterMode::Sample => "sample"@,
            HevcEncodeParameterMode::SampleNoAddInfo => "sample-no-add-info"@,
            HevcEncodeParameterMode::SampleVpsOnly => "sample-vps-only"@,
            HevcEncodeParameterMode::SampleSpsOnly => "sample-sps-only"@,
            HevcEncodeParameterMode::SampleSpsNoVui => "sample-sps-no-vui"@,
            HevcEncodeParameterMode::SampleSpsVuiFlagOff => "sample-sps-vui-flag-off"@,
            HevcEncodeParameterMode::SampleSpsNoVuiFlagOn => "sample-sps-no-vui-flag-on"@,
            HevcEncodeParameterMode::SampleSpsNoRps => "sample-sps-no-rps"@,
            HevcEncodeParameterMode::SampleSpsSafeFlags => "sample-sps-safe-flags"@,
            HevcEncodeParameterMode::SampleSpsLevel => "sample-sps-level"@,
            HevcEncodeParameterMode::SampleSpsSubLayerOrdering => "sample-sps-sub-layer-ordering"@,
            HevcEncodeParameterMode::SampleSpsLevelOrdering => "sample-sps-level-ordering"@,
            HevcEncodeParameterMode::SamplePpsOnly => "sample-pps-only"@,
            HevcEncodeParameterMode::EmptyTemplate => "empty-template"@,
        }
    }
}

pub fn hevc_encode_parameter_mode_label(mode: HevcEncodeParameterMode) -> (r: &'static str)
    ensures
        r@ == mode.label(),
{
    match mode {
        HevcEncodeParameterMode::Sample => "sample",
        HevcEncodeParameterMode::SampleNoAddInfo => "sample-no-add-info",
        HevcEncodeParameterMode::SampleVpsOnly => "sample-vps-only",
        HevcEncodeParameterMode::SampleSpsOnly => "sample-sps-only",
        HevcEncodeParameterMode::SampleSpsNoVui => "sample-sps-no-vui",
        HevcEncodeParameterMode::SampleSpsVuiFlagOff => "sample-sps-vui-flag-off",
        HevcEncodeParameterMode::SampleSpsNoVuiFlagOn => "sample-sps-no-vui-flag-on",
        HevcEncodeParameterMode::SampleSpsNoRps => "sample-sps-no-rps",
        HevcEncodeParameterMode::SampleSpsSafeFlags => "sample-sps-safe-flags",
        HevcEncodeParameterMode::SampleSpsLevel => "sample-sps-level",
        HevcEncodeParameterMode::SampleSpsSubLayerOrdering => "sample-sps-sub-layer-ordering",
        HevcEncodeParameterMode::SampleSpsLevelOrdering => "sample-sps-level-ordering",
        HevcEncodeParameterMode::SamplePpsOnly => "sample-pps-only",
        HevcEncodeParameterMode::EmptyTemplate => "empty-template",
    }
}

/// The value that a normalised name stands for. Unknown names mean the default.
pub open spec fn parameter_mode_named(name: Option<Seq<char>>) -> HevcEncodeParameterMode {
    match name {
        None => HevcEncodeParameterMode::Sample,
        Some(n) => if n == "sample-no-add"@ || n == "sample_no_add"@ || n == "sample-no-add-info"@
            || n == "sample_no_add_info"@ || n == "sample-minimal"@ {
            HevcEncodeParameterMode::SampleNoAddInfo
        } else if n == "sample-vps-only"@ || n == "sample_vps_only"@ || n == "sample-vps"@
            || n == "vps-only"@ || n == "vps_only"@ {
            HevcEncodeParameterMode::SampleVpsOnly
        } else if n == "sample-sps-only"@ || n == "sample_sps_only"@ || n == "sample-sps"@
            || n == "sps-only"@ || n == "sps_only"@ {
            HevcEncodeParameterMode::SampleSpsOnly
        } else if n == "sample-sps-no-vui"@ || n == "sample_sps_no_vui"@
            || n == "sample-sps-no-vui-info"@ || n == "sps-no-vui"@ || n == "sps_no_vui"@ {
            HevcEncodeParameterMode::SampleSpsNoVui
        } else if n == "sample-sps-vui-flag-off"@ || n == "sample_sps_vui_flag_off"@
            || n == "sample-sps-flag-vui-off"@ || n == "sps-vui-flag-off"@
            || n == "sps_vui_flag_off"@ {
            HevcEncodeParameterMode::SampleSpsVuiFlagOff
        } else if n == "sample-sps-no-vui-flag-on"@ || n == "sample_sps_no_vui_flag_on"@
            || n == "sample-sps-vui-flag-on"@ || n == "sps-no-vui-flag-on"@
            || n == "sps_no_vui_flag_on"@ {
            HevcEncodeParameterMode::SampleSpsNoVuiFlagOn
        } else if n == "sample-sps-no-rps"@ || n == "sample_sps_no_rps"@
            || n == "sample-sps-no-ref-sets"@ || n == "sps-no-rps"@ || n == "sps_no_rps"@ {
            HevcEncodeParameterMode::SampleSpsNoRps
        } else if n == "sample-sps-safe-flags"@ || n == "sample_sps_safe_flags"@
            || n == "sample-sps-libx265-flags"@ || n == "sps-safe-flags"@
            || n == "sps_safe_flags"@ {
            HevcEncodeParameterMode::SampleSpsSafeFlags
        } else if n == "sample-sps-level"@ || n == "sample_sps_level"@
            || n == "sample-sps-level-idc"@ || n == "sps-level"@ || n == "sps_level"@ {
            HevcEncodeParameterMode::SampleSpsLevel
        } else if n == "sample-sps-sub-layer-ordering"@ || n == "sample_sps_sub_layer_ordering"@
            || n == "sample-sps-ordering"@ || n == "sps-ordering"@ || n == "sps_ordering"@ {
            HevcEncodeParameterMode::SampleSpsSubLayerOrdering
        } else if n == "sample-sps-level-ordering"@ || n == "sample_sps_level_ordering"@
            || n == "sample-sps-libx265-shape"@ || n == "sps-level-ordering"@
            || n == "sps_level_ordering"@ {
            HevcEncodeParameterMode::SampleSpsLevelOrdering
        } else if n == "sample-pps-only"@ || n == "sample_pps_only"@ || n == "sample-pps"@
            || n == "pps-only"@ || n == "pps_only"@ {
            HevcEncodeParameterMode::SamplePpsOnly
        } else if n == "empty"@ || n == "template"@ || n == "minimal"@ || n == "empty-template"@
            || n == "empty_template"@ {
            HevcEncodeParameterMode::EmptyTemplate
        } else {
            HevcEncodeParameterMode::Sample
        },
    }
}

pub fn parse_hevc_encode_parameter_mode(mode: Option<&str>) -> (r: HevcEncodeParameterMode)
    ensures
        r == parameter_mode_named(normalized(mode)),
{
    match normalize_option(mode) {
        None => HevcEncodeParameterMode::Sample,
        Some(text) => {
            let n = text.as_str();
            if same_text(n, "sample-no-add") || same_text(n, "sample_no_add")
                || same_text(n, "sample-no-add-info") || same_text(n, "sample_no_add_info")
                || same_text(n, "sample-minimal") {
                HevcEncodeParameterMode::SampleNoAddInfo
            } else if same_text(n, "sample-vps-only") || same_text(n, "sample_vps_only")
                || same_text(n, "sample-vps") || same_text(n, "vps-only")
                || same_text(n, "vps_only") {
                HevcEncodeParameterMode::SampleVpsOnly
            } else if same_text(n, "sample-sps-only") || same_text(n, "sample_sps_only")
                || same_text(n, "sample-sps") || same_text(n, "sps-only")
                || same_text(n, "sps_only") {
                HevcEncodeParameterMode::SampleSpsOnly
            } else if same_text(n, "sample-sps-no-vui") || same_text(n, "sample_sps_no_vui")
                || same_text(n, "sample-sps-no-vui-info") || same_text(n, "sps-no-vui")
                || same_text(n, "sps_no_vui") {
                HevcEncodeParameterMode::SampleSpsNoVui
            } else if same_text(n, "sample-sps-vui-flag-off")
                || same_text(n, "sample_sps_vui_flag_off")
                || same_text(n, "sample-sps-flag-vui-off") || same_text(n, "sps-vui-flag-off")
                || same_text(n, "sps_vui_flag_off") {
                HevcEncodeParameterMode::SampleSpsVuiFlagOff
            } else if same_text(n, "sample-sps-no-vui-flag-on")
                || same_text(n, "sample_sps_no_vui_flag_on")
                || same_text(n, "sample-sps-vui-flag-on") || same_text(n, "sps-no-vui-flag-on")
                || same_text(n, "sps_no_vui_flag_on") {
                HevcEncodeParameterMode::SampleSpsNoVuiFlagOn
            } else if same_text(n, "sample-sps-no-rps") || same_text(n, "sample_sps_no_rps")
                || same_text(n, "sample-sps-no-ref-sets") || same_text(n, "sps-no-rps")
                || same_text(n, "sps_no_rps") {
                HevcEncodeParameterMode::SampleSpsNoRps
            } else if same_text(n, "sample-sps-safe-flags")
                || same_text(n, "sample_sps_safe_flags")
                || same_text(n, "sample-sps-libx265-flags") || same_text(n, "sps-safe-flags")
                || same_text(n, "sps_safe_flags") {
                HevcEncodeParameterMode::SampleSpsSafeFlags
            } else if same_text(n, "sample-sps-level") || same_text(n, "sample_sps_level")
                || same_text(n, "sample-sps-level-idc") || same_text(n, "sps-level")
                || same_text(n, "sps_level") {
                HevcEncodeParameterMode::SampleSpsLevel
            } else if same_text(n, "sample-sps-sub-layer-ordering")
                || same_text(n, "sample_sps_sub_layer_ordering")
                || same_text(n, "sample-sps-ordering") || same_text(n, "sps-ordering")
                || same_text(n, "sps_ordering") {
                HevcEncodeParameterMode::SampleSpsSubLayerOrdering
            } else if same_text(n, "sample-sps-level-ordering")
                || same_text(n, "sample_sps_level_ordering")
                || same_text(n, "sample-sps-libx265-shape") || same_text(n, "sps-level-ordering")
                || same_text(n, "sps_level_ordering") {
                HevcEncodeParameterMode::SampleSpsLevelOrdering
            } else if same_text(n, "sample-pps-only") || same_text(n, "sample_pps_only")
                || same_text(n, "sample-pps") || same_text(n, "pps-only")
                || same_text(n, "pps_only") {
                HevcEncodeParameterMode::SamplePpsOnly
            } else if same_text(n, "empty") || same_text(n, "template") || same_text(n, "minimal")
                || same_text(n, "empty-template") || same_text(n, "empty_template") {
                HevcEncodeParameterMode::EmptyTemplate
            } else {
                HevcEncodeParameterMode::Sample
            }
        },
    }
}

/// What the reference lists hold.
#[derive(Debug, Clone, Copy, PartialEq, Eq, Structural)]
pub enum HevcEncodeProbeReferenceListMode {
    Sentinel,
    Zero,
    NullPointers,
}

impl HevcEncodeProbeReferenceListMode {
    pub open spec fn label(self) -> Seq<char> {
        match self {
            HevcEncodeProbeReferenceListMode::Sentinel => "sentinel"@,
            HevcEncodeProbeReferenceListMode::Zero => "zero"@,
            HevcEncodeProbeReferenceListMode::NullPointers => "null-pointers"@,
        }
    }
}

pub fn hevc_encode_probe_reference_list_mode_label(mode: HevcEncodeProbeReferenceListMode) -> (r: &'static str)
    ensures
        r@ == mode.label(),
{
    match mode {
        HevcEncodeProbeReferenceListMode::Sentinel => "sentinel",
        HevcEncodeProbeReferenceListMode::Zero => "zero",
        HevcEncodeProbeReferenceListMode::NullPointers => "null-pointers",
    }
}

/// The value that a normalised name stands for. Unknown names mean the default.
pub open spec fn reference_list_mode_named(name: Option<Seq<char>>) -> HevcEncodeProbeReferenceListMode {
    match name {
        None => HevcEncodeProbeReferenceListMode::Sentinel,
        Some(n) => if n == "zero"@ || n == "zeroed"@ || n == "0"@ {
            HevcEncodeProbeReferenceListMode::Zero
        } else if n == "null"@ || n == "null-pointer"@ || n == "null-pointers"@
            || n == "null_pointer"@ || n == "null_pointers"@ {
            HevcEncodeProbeReferenceListMode::NullPointers
        } else {
            HevcEncodeProbeReferenceListMode::Sentinel
        },
    }
}

pub fn parse_hevc_encode_probe_reference_list_mode(mode: Option<&str>) -> (r: HevcEncodeProbeReferenceListMode)
    ensures
        r == reference_list_mode_named(normalized(mode)),
{
    match normalize_option(mode) {
        None => HevcEncodeProbeReferenceListMode::Sentinel,
        Some(text) => {
            let n = text.as_str();
            if same_text(n, "zero") || same_text(n, "zeroed") || same_text(n, "0") {
                HevcEncodeProbeReferenceListMode::Zero
            } else if same_text(n, "null") || same_text(n, "null-pointer")
                || same_text(n, "null-pointers") || same_text(n, "null_pointer")
                || same_text(n, "null_pointers") {
                HevcEncodeProbeReferenceListMode::NullPointers
            } else {
                HevcEncodeProbeReferenceListMode::Sentinel
            }
        },
    }
}

/// Which coding control is issued.
#[derive(Debug, Clone, Copy, PartialEq, Eq, Structural)]
pub enum HevcEncodeProbeControlMode {
    Default,
    Ffmpeg,
    NoControl,
}

impl HevcEncodeProbeControlMode {
    pub open spec fn label(self) -> Seq<char> {
        match self {
            HevcEncodeProbeControlMode::Default => "default"@,
            HevcEncodeProbeControlMode::Ffmpeg => "ffmpeg"@,
            HevcEncodeProbeControlMode::NoControl => "none"@,
        }
    }
}

pub fn hevc_encode_probe_control_mode_label(mode: HevcEncodeProbeControlMode) -> (r: &'static str)
    ensures
        r@ == mode.label(),
{
    match mode {
        HevcEncodeProbeControlMode::Default => "default",
        HevcEncodeProbeControlMode::Ffmpeg => "ffmpeg",
        HevcEncodeProbeControlMode::NoControl => "none",
    }
}

/// The value that a normalised name stands for. Unknown names mean the default.
pub open spec fn control_mode_named(name: Option<Seq<char>>) -> HevcEncodeProbeControlMode {
    match name {
        None => HevcEncodeProbeControlMode::Default,
        Some(n) => if n == "ffmpeg"@ || n == "ffmpeg-like"@ || n == "ffmpeg_like"@
            || n == "compat"@ {
            HevcEncodeProbeControlMode::Ffmpeg
        } else if n == "none"@ || n == "off"@ || n == "disable"@ || n == "disabled"@
            || n == "no-control"@ || n == "no_control"@ {
            HevcEncodeProbeControlMode::NoControl
        } else {
            HevcEncodeProbeControlMode::Default
        },
    }
}

pub fn parse_hevc_encode_probe_control_mode(mode: Option<&str>) -> (r: HevcEncodeProbeControlMode)
    ensures
        r == control_mode_named(normalized(mode)),
{
    match normalize_option(mode) {
        None => HevcEncodeProbeControlMode::Default,
        Some(text) => {
            let n = text.as_str();
            if same_text(n, "ffmpeg") || same_text(n, "ffmpeg-like")
                || same_text(n, "ffmpeg_like") || same_text(n, "compat") {
                HevcEncodeProbeControlMode::Ffmpeg
            } else if same_text(n, "none") || same_text(n, "off") || same_text(n, "disable")
                || same_text(n, "disabled") || same_text(n, "no-control")
                || same_text(n, "no_control") {
                HevcEncodeProbeControlMode::NoControl
            } else {
                HevcEncodeProbeControlMode::Default
            }
        },
    }
}

/// Which rate control is asked for.
#[derive(Debug, Clone, Copy, PartialEq, Eq, Structural)]
pub enum HevcEncodeProbeRateControlMode {
    Auto,
    Disabled,
    Cbr,
    Vbr,
    NoRateControl,
}

impl HevcEncodeProbeRateControlMode {
    pub open spec fn label(self) -> Seq<char> {
        match self {
            HevcEncodeProbeRateControlMode::Auto => "auto"@,
            HevcEncodeProbeRateControlMode::Disabled => "disabled"@,
            HevcEncodeProbeRateControlMode::Cbr => "cbr"@,
            HevcEncodeProbeRateControlMode::Vbr => "vbr"@,
            HevcEncodeProbeRateControlMode::NoRateControl => "none"@,
        }
    }
}

pub fn hevc_encode_probe_rate_control_mode_label(mode: HevcEncodeProbeRateControlMode) -> (r: &'static str)
    ensures
        r@ == mode.label(),
{
    match mode {
        HevcEncodeProbeRateControlMode::Auto => "auto",
        HevcEncodeProbeRateControlMode::Disabled => "disabled",
        HevcEncodeProbeRateControlMode::Cbr => "cbr",
        HevcEncodeProbeRateControlMode::Vbr => "vbr",
        HevcEncodeProbeRateControlMode::NoRateControl => "none",
    }
}

/// The value that a normalised name stands for. Unknown names mean the default.
pub open spec fn rate_control_mode_named(name: Option<Seq<char>>) -> HevcEncodeProbeRateControlMode {
    match name {
        None => HevcEncodeProbeRateControlMode::Auto,
        Some(n) => if n == "disabled"@ || n == "disable"@ || n == "off"@ {
            HevcEncodeProbeRateControlMode::Disabled
        } else if n == "cbr"@ {
            HevcEncodeProbeRateControlMode::Cbr
        } else if n == "vbr"@ {
            HevcEncodeProbeRateControlMode::Vbr
        } else if n == "none"@ || n == "null"@ {
            HevcEncodeProbeRateControlMode::NoRateControl
        } else {
            HevcEncodeProbeRateControlMode::Auto
        },
    }
}

pub fn parse_hevc_encode_probe_rate_control_mode(mode: Option<&str>) -> (r: HevcEncodeProbeRateControlMode)
    ensures
        r == rate_control_mode_named(normalized(mode)),
{
    match normalize_option(mode) {
        None => HevcEncodeProbeRateControlMode::Auto,
        Some(text) => {
            let n = text.as_str();
            if same_text(n, "disabled") || same_text(n, "disable") || same_text(n, "off") {
                HevcEncodeProbeRateControlMode::Disabled
            } else if same_text(n, "cbr") {
                HevcEncodeProbeRateControlMode::Cbr
            } else if same_text(n, "vbr") {
                HevcEncodeProbeRateControlMode::Vbr
            } else if same_text(n, "none") || same_text(n, "null") {
                HevcEncodeProbeRateControlMode::NoRateControl
            } else {
                HevcEncodeProbeRateControlMode::Auto
            }
        },
    }
}

/// Whether the maintenance feature is switched on.
#[derive(Debug, Clone, Copy, PartialEq, Eq, Structural)]
pub enum HevcEncodeProbeMaintenance1Mode {
    Auto,
    On,
    Off,
}

impl HevcEncodeProbeMaintenance1Mode {
    pub open spec fn label(self) -> Seq<char> {
        match self {
            HevcEncodeProbeMaintenance1Mode::Auto => "auto"@,
            HevcEncodeProbeMaintenance1Mode::On => "on"@,
            HevcEncodeProbeMaintenance1Mode::Off => "off"@,
        }
    }
}

pub fn hevc_encode_probe_maintenance1_mode_label(mode: HevcEncodeProbeMaintenance1Mode) -> (r: &'static str)
    ensures
        r@ == mode.label(),
{
    match mode {
        HevcEncodeProbeMaintenance1Mode::Auto => "auto",
        HevcEncodeProbeMaintenance1Mode::On => "on",
        HevcEncodeProbeMaintenance1Mode::Off => "off",
    }
}

/// The value that a normalised name stands for. Unknown names mean the default.
pub open spec fn maintenance1_mode_named(name: Option<Seq<char>>) -> HevcEncodeProbeMaintenance1Mode {
    match name {
        None => HevcEncodeProbeMaintenance1Mode::Auto,
        Some(n) => if n == "on"@ || n == "enable"@ || n == "enabled"@ || n == "force-on"@
            || n == "force_on"@ || n == "true"@ || n == "1"@ {
            HevcEncodeProbeMaintenance1Mode::On
        } else if n == "off"@ || n == "disable"@ || n == "disabled"@ || n == "force-off"@
            || n == "force_off"@ || n == "false"@ || n == "0"@ || n == "none"@ {
            HevcEncodeProbeMaintenance1Mode::Off
        } else {
            HevcEncodeProbeMaintenance1Mode::Auto
        },
    }
}

pub fn parse_hevc_encode_probe_maintenance1_mode(mode: Option<&str>) -> (r: HevcEncodeProbeMaintenance1Mode)
    ensures
        r == maintenance1_mode_named(normalized(mode)),
{
    match normalize_option(mode) {
        None => HevcEncodeProbeMaintenance1Mode::Auto,
        Some(text) => {
            let n = text.as_str();
            if same_text(n, "on") || same_text(n, "enable") || same_text(n, "enabled")
                || same_text(n, "force-on") || same_text(n, "force_on") || same_text(n, "true")
                || same_text(n, "1") {
                HevcEncodeProbeMaintenance1Mode::On
            } else if same_text(n, "off") || same_text(n, "disable") || same_text(n, "disabled")
                || same_text(n, "force-off") || same_text(n, "force_off") || same_text(n, "false")
                || same_text(n, "0") || same_text(n, "none") {
                HevcEncodeProbeMaintenance1Mode::Off
            } else {
                HevcEncodeProbeMaintenance1Mode::Auto
            }
        },
    }
}

/// How many pictures a session keeps.
#[derive(Debug, Clone, Copy, PartialEq, Eq, Structural)]
pub enum HevcEncodeProbeSessionDpbMode {
    Default,
    MinimalOne,
}

impl HevcEncodeProbeSessionDpbMode {
    pub open spec fn label(self) -> Seq<char> {
        match self {
            HevcEncodeProbeSessionDpbMode::Default => "default"@,
            HevcEncodeProbeSessionDpbMode::MinimalOne => "minimal-one"@,
        }
    }
}

pub fn hevc_encode_probe_session_dpb_mode_label(mode: HevcEncodeProbeSessionDpbMode) -> (r: &'static str)
    ensures
        r@ == mode.label(),
{
    match mode {
        HevcEncodeProbeSessionDpbMode::Default => "default",
        HevcEncodeProbeSessionDpbMode::MinimalOne => "minimal-one",
    }
}

/// The value that a normalised name stands for. Unknown names mean the default.
pub open spec fn session_dpb_mode_named(name: Option<Seq<char>>) -> HevcEncodeProbeSessionDpbMode {
    match name {
        None => HevcEncodeProbeSessionDpbMode::Default,
        Some(n) => if n == "minimal"@ || n == "minimal-one"@ || n == "minimal_1"@
            || n == "minimal1"@ || n == "one"@ || n == "1"@ {
            HevcEncodeProbeSessionDpbMode::MinimalOne
        } else {
            HevcEncodeProbeSessionDpbMode::Default
        },
    }
}

pub fn parse_hevc_encode_probe_session_dpb_mode(mode: Option<&str>) -> (r: HevcEncodeProbeSessionDpbMode)
    ensures
        r == session_dpb_mode_named(normalized(mode)),
{
    match normalize_option(mode) {
        None => HevcEncodeProbeSessionDpbMode::Default,
        Some(text) => {
            let n = text.as_str();
            if same_text(n, "minimal") || same_text(n, "minimal-one") || same_text(n, "minimal_1")
                || same_text(n, "minimal1") || same_text(n, "one") || same_text(n, "1") {
                HevcEncodeProbeSessionDpbMode::MinimalOne
            } else {
                HevcEncodeProbeSessionDpbMode::Default
            }
        },
    }
}

/// Whether a coding scope is opened with session parameters.
#[derive(Debug, Clone, Copy, PartialEq, Eq, Structural)]
pub enum HevcEncodeProbeBeginSessionParametersMode {
    With,
    Without,
}

impl HevcEncodeProbeBeginSessionParametersMode {
    pub open spec fn label(self) -> Seq<char> {
        match self {
            HevcEncodeProbeBeginSessionParametersMode::With => "with"@,
            HevcEncodeProbeBeginSessionParametersMode::Without => "without"@,
        }
    }
}

pub fn hevc_encode_probe_begin_session_parameters_mode_label(mode: HevcEncodeProbeBeginSessionParametersMode) -> (r: &'static str)
    ensures
        r@ == mode.label(),
{
    match mode {
        HevcEncodeProbeBeginSessionParametersMode::With => "with",
        HevcEncodeProbeBeginSessionParametersMode::Without => "without",
    }
}

/// The value that a normalised name stands for. Unknown names mean the default.
pub open spec fn begin_session_parameters_mode_named(name: Option<Seq<char>>) -> HevcEncodeProbeBeginSessionParametersMode {
    match name {
        None => HevcEncodeProbeBeginSessionParametersMode::With,
        Some(n) => if n == "without"@ || n == "none"@ || n == "off"@ || n == "disable"@
            || n == "disabled"@ || n == "no-params"@ || n == "no_params"@ || n == "0"@ {
            HevcEncodeProbeBeginSessionParametersMode::Without
        } else {
            HevcEncodeProbeBeginSessionParametersMode::With
        },
    }
}

pub fn parse_hevc_encode_probe_begin_session_parameters_mode(mode: Option<&str>) -> (r: HevcEncodeProbeBeginSessionParametersMode)
    ensures
        r == begin_session_parameters_mode_named(normalized(mode)),
{
    match normalize_option(mode) {
        None => HevcEncodeProbeBeginSessionParametersMode::With,
        Some(text) => {
            let n = text.as_str();
            if same_text(n, "without") || same_text(n, "none") || same_text(n, "off")
                || same_text(n, "disable") || same_text(n, "disabled")
                || same_text(n, "no-params") || same_text(n, "no_params") || same_text(n, "0") {
                HevcEncodeProbeBeginSessionParametersMode::Without
            } else {
                HevcEncodeProbeBeginSessionParametersMode::With
            }
        },
    }
}

/// How much a trial recording holds.
#[derive(Debug, Clone, Copy, PartialEq, Eq, Structural)]
pub enum HevcEncodePreEncodeProbeMode {
    ScopeOnly,
    WithEncode,
    WithEncodeMinimal,
}

impl HevcEncodePreEncodeProbeMode {
    pub open spec fn label(self) -> Seq<char> {
        match self {
            HevcEncodePreEncodeProbeMode::ScopeOnly => "scope-only"@,
            HevcEncodePreEncodeProbeMode::WithEncode => "with-encode"@,
            HevcEncodePreEncodeProbeMode::WithEncodeMinimal => "with-encode-minimal"@,
        }
    }
}

pub fn hevc_encode_pre_encode_probe_mode_label(mode: HevcEncodePreEncodeProbeMode) -> (r: &'static str)
    ensures
        r@ == mode.label(),
{
    match mode {
        HevcEncodePreEncodeProbeMode::ScopeOnly => "scope-only",
        HevcEncodePreEncodeProbeMode::WithEncode => "with-encode",
        HevcEncodePreEncodeProbeMode::WithEncodeMinimal => "with-encode-minimal",
    }
}

/// What the main recording is.
#[derive(Debug, Clone, Copy, PartialEq, Eq, Structural)]
pub enum HevcEncodePrimaryProbeMode {
    Submit,
    ScopeOnly,
    PreEncodeScopeOnly,
    PreEncode,
    PreEncodeMinimal,
}

impl HevcEncodePrimaryProbeMode {
    pub open spec fn label(self) -> Seq<char> {
        match self {
            HevcEncodePrimaryProbeMode::Submit => "submit"@,
            HevcEncodePrimaryProbeMode::ScopeOnly => "scope-only"@,
            HevcEncodePrimaryProbeMode::PreEncodeScopeOnly => "pre-encode-scope-only"@,
            HevcEncodePrimaryProbeMode::PreEncode => "pre-encode"@,
            HevcEncodePrimaryProbeMode::PreEncodeMinimal => "pre-encode-minimal"@,
        }
    }
}

pub fn hevc_encode_primary_probe_mode_label(mode: HevcEncodePrimaryProbeMode) -> (r: &'static str)
    ensures
        r@ == mode.label(),
{
    match mode {
        HevcEncodePrimaryProbeMode::Submit => "submit",
        HevcEncodePrimaryProbeMode::ScopeOnly => "scope-only",
        HevcEncodePrimaryProbeMode::PreEncodeScopeOnly => "pre-encode-scope-only",
        HevcEncodePrimaryProbeMode::PreEncode => "pre-encode",
        HevcEncodePrimaryProbeMode::PreEncodeMinimal => "pre-encode-minimal",
    }
}

/// The value that a normalised name stands for. Unknown names mean the default.
pub open spec fn primary_mode_named(name: Option<Seq<char>>) -> HevcEncodePrimaryProbeMode {
    match name {
        None => HevcEncodePrimaryProbeMode::Submit,
        Some(n) => if n == "scope-only"@ || n == "scope_only"@ || n == "scope"@
            || n == "coding-scope"@ || n == "coding_scope"@ || n == "coding"@ {
            HevcEncodePrimaryProbeMode::ScopeOnly
        } else if n == "pre-encode-scope"@ || n == "pre_encode_scope"@
            || n == "pre-encode-scope-only"@ || n == "pre_encode_scope_only"@ || n == "pre-scope"@
            || n == "prescope"@ {
            HevcEncodePrimaryProbeMode::PreEncodeScopeOnly
        } else if n == "pre-encode"@ || n == "pre_encode"@ || n == "encode-only"@
            || n == "encode_only"@ || n == "encode"@ {
            HevcEncodePrimaryProbeMode::PreEncode
        } else if n == "pre-encode-minimal"@ || n == "pre_encode_minimal"@ || n == "minimal"@
            || n == "encode-minimal"@ || n == "encode_minimal"@ {
            HevcEncodePrimaryProbeMode::PreEncodeMinimal
        } else {
            HevcEncodePrimaryProbeMode::Submit
        },
    }
}

pub fn parse_hevc_encode_probe_primary_mode(mode: Option<&str>) -> (r: HevcEncodePrimaryProbeMode)
    ensures
        r == primary_mode_named(normalized(mode)),
{
    match normalize_option(mode) {
        None => HevcEncodePrimaryProbeMode::Submit,
        Some(text) => {
            let n = text.as_str();
            if same_text(n, "scope-only") || same_text(n, "scope_only") || same_text(n, "scope")
                || same_text(n, "coding-scope") || same_text(n, "coding_scope")
                || same_text(n, "coding") {
                HevcEncodePrimaryProbeMode::ScopeOnly
            } else if same_text(n, "pre-encode-scope") || same_text(n, "pre_encode_scope")
                || same_text(n, "pre-encode-scope-only") || same_text(n, "pre_encode_scope_only")
                || same_text(n, "pre-scope") || same_text(n, "prescope") {
                HevcEncodePrimaryProbeMode::PreEncodeScopeOnly
            } else if same_text(n, "pre-encode") || same_text(n, "pre_encode")
                || same_text(n, "encode-only") || same_text(n, "encode_only")
                || same_text(n, "encode") {
                HevcEncodePrimaryProbeMode::PreEncode
            } else if same_text(n, "pre-encode-minimal") || same_text(n, "pre_encode_minimal")
                || same_text(n, "minimal") || same_text(n, "encode-minimal")
                || same_text(n, "encode_minimal") {
                HevcEncodePrimaryProbeMode::PreEncodeMinimal
            } else {
                HevcEncodePrimaryProbeMode::Submit
            }
        },
    }
}

/// The number of active references less one.
#[derive(Debug, Clone, Copy, PartialEq, Eq, Structural)]
pub enum HevcEncodeProbeReferenceIndexMode {
    MinusOne,
    Zero,
}

impl HevcEncodeProbeReferenceIndexMode {
    pub open spec fn label(self) -> Seq<char> {
        match self {
            HevcEncodeProbeReferenceIndexMode::MinusOne => "minus-one"@,
            HevcEncodeProbeReferenceIndexMode::Zero => "zero"@,
        }
    }
}

pub fn hevc_encode_probe_reference_index_mode_label(mode: HevcEncodeProbeReferenceIndexMode) -> (r: &'static str)
    ensures
        r@ == mode.label(),
{
    match mode {
        HevcEncodeProbeReferenceIndexMode::MinusOne => "minus-one",
        HevcEncodeProbeReferenceIndexMode::Zero => "zero",
    }
}

/// The value that a normalised name stands for. Unknown names mean the default.
pub open spec fn reference_index_mode_named(name: Option<Seq<char>>) -> HevcEncodeProbeReferenceIndexMode {
    match name {
        None => HevcEncodeProbeReferenceIndexMode::MinusOne,
        Some(n) => if n == "zero"@ || n == "0"@ {
            HevcEncodeProbeReferenceIndexMode::Zero
        } else {
            HevcEncodeProbeReferenceIndexMode::MinusOne
        },
    }
}

pub fn parse_hevc_encode_probe_reference_index_mode(mode: Option<&str>) -> (r: HevcEncodeProbeReferenceIndexMode)
    ensures
        r == reference_index_mode_named(normalized(mode)),
{
    match normalize_option(mode) {
        None => HevcEncodeProbeReferenceIndexMode::MinusOne,
        Some(text) => {
            let n = text.as_str();
            if same_text(n, "zero") || same_text(n, "0") {
                HevcEncodeProbeReferenceIndexMode::Zero
            } else {
                HevcEncodeProbeReferenceIndexMode::MinusOne
            }
        },
    }
}

/// How an empty reference picture set is given.
#[derive(Debug, Clone, Copy, PartialEq, Eq, Structural)]
pub enum HevcEncodeProbeRpsMode {
    EmptyStruct,
    NullPointers,
}

impl HevcEncodeProbeRpsMode {
    pub open spec fn label(self) -> Seq<char> {
        match self {
            HevcEncodeProbeRpsMode::EmptyStruct => "empty-struct"@,
            HevcEncodeProbeRpsMode::NullPointers => "null-pointers"@,
        }
    }
}

pub fn hevc_encode_probe_rps_mode_label(mode: HevcEncodeProbeRpsMode) -> (r: &'static str)
    ensures
        r@ == mode.label(),
{
    match mode {
        HevcEncodeProbeRpsMode::EmptyStruct => "empty-struct",
        HevcEncodeProbeRpsMode::NullPointers => "null-pointers",
    }
}

/// The value that a normalised name stands for. Unknown names mean the default.
pub open spec fn rps_mode_named(name: Option<Seq<char>>) -> HevcEncodeProbeRpsMode {
    match name {
        None => HevcEncodeProbeRpsMode::EmptyStruct,
        Some(n) => if n == "null"@ || n == "null-pointers"@ || n == "null_pointers"@ {
            HevcEncodeProbeRpsMode::NullPointers
        } else {
            HevcEncodeProbeRpsMode::EmptyStruct
        },
    }
}

pub fn parse_hevc_encode_probe_rps_mode(mode: Option<&str>) -> (r: HevcEncodeProbeRpsMode)
    ensures
        r == rps_mode_named(normalized(mode)),
{
    match normalize_option(mode) {
        None => HevcEncodeProbeRpsMode::EmptyStruct,
        Some(text) => {
            let n = text.as_str();
            if same_text(n, "null") || same_text(n, "null-pointers")
                || same_text(n, "null_pointers") {
                HevcEncodeProbeRpsMode::NullPointers
            } else {
                HevcEncodeProbeRpsMode::EmptyStruct
            }
        },
    }
}

/// Which slot a coding scope is opened with.
#[derive(Debug, Clone, Copy, PartialEq, Eq, Structural)]
pub enum HevcEncodeProbeBeginReferenceSlotMode {
    SlotMinusOne,
    /// The slot is not described for this codec.
    SlotMinusOneNoCodecInfo,
    NoSlot,
}

impl HevcEncodeProbeBeginReferenceSlotMode {
    pub open spec fn label(self) -> Seq<char> {
        match self {
            HevcEncodeProbeBeginReferenceSlotMode::SlotMinusOne => "slot-minus-one"@,
            HevcEncodeProbeBeginReferenceSlotMode::SlotMinusOneNoCodecInfo => {
                "slot-minus-one-no-codec-info"@
            },
            HevcEncodeProbeBeginReferenceSlotMode::NoSlot => "none"@,
        }
    }
}

pub fn hevc_encode_probe_begin_reference_slot_mode_label(mode: HevcEncodeProbeBeginReferenceSlotMode) -> (r: &'static str)
    ensures
        r@ == mode.label(),
{
    match mode {
        HevcEncodeProbeBeginReferenceSlotMode::SlotMinusOne => "slot-minus-one",
        HevcEncodeProbeBeginReferenceSlotMode::SlotMinusOneNoCodecInfo => {
            "slot-minus-one-no-codec-info"
        },
        HevcEncodeProbeBeginReferenceSlotMode::NoSlot => "none",
    }
}

/// The value that a normalised name stands for. Unknown names mean the default.
pub open spec fn begin_reference_slot_mode_named(name: Option<Seq<char>>) -> HevcEncodeProbeBeginReferenceSlotMode {
    match name {
        None => HevcEncodeProbeBeginReferenceSlotMode::SlotMinusOne,
        Some(n) => if n == "none"@ || n == "off"@ || n == "disable"@ || n == "disabled"@ {
            HevcEncodeProbeBeginReferenceSlotMode::NoSlot
        } else if n == "slot-minus-one-no-codec-info"@ {
            HevcEncodeProbeBeginReferenceSlotMode::SlotMinusOneNoCodecInfo
        } else {
            HevcEncodeProbeBeginReferenceSlotMode::SlotMinusOne
        },
    }
}

pub fn parse_hevc_encode_probe_begin_reference_slot_mode(mode: Option<&str>) -> (r: HevcEncodeProbeBeginReferenceSlotMode)
    ensures
        r == begin_reference_slot_mode_named(normalized(mode)),
{
    match normalize_option(mode) {
        None => HevcEncodeProbeBeginReferenceSlotMode::SlotMinusOne,
        Some(text) => {
            let n = text.as_str();
            if same_text(n, "none") || same_text(n, "off") || same_text(n, "disable")
                || same_text(n, "disabled") {
                HevcEncodeProbeBeginReferenceSlotMode::NoSlot
            } else if same_text(n, "slot-minus-one-no-codec-info") {
                HevcEncodeProbeBeginReferenceSlotMode::SlotMinusOneNoCodecInfo
            } else {
                HevcEncodeProbeBeginReferenceSlotMode::SlotMinusOne
            }
        },
    }
}

/// Which slot the picture is stored in.
#[derive(Debug, Clone, Copy, PartialEq, Eq, Structural)]
pub enum HevcEncodeProbeSetupReferenceSlotMode {
    SlotZero,
    NoSlot,
}

impl HevcEncodeProbeSetupReferenceSlotMode {
    pub open spec fn label(self) -> Seq<char> {
        match self {
            HevcEncodeProbeSetupReferenceSlotMode::SlotZero => "slot-zero"@,
            HevcEncodeProbeSetupReferenceSlotMode::NoSlot => "none"@,
        }
    }
}

pub fn hevc_encode_probe_setup_reference_slot_mode_label(mode: HevcEncodeProbeSetupReferenceSlotMode) -> (r: &'static str)
    ensures
        r@ == mode.label(),
{
    match mode {
        HevcEncodeProbeSetupReferenceSlotMode::SlotZero => "slot-zero",
        HevcEncodeProbeSetupReferenceSlotMode::NoSlot => "none",
    }
}

/// The value that a normalised name stands for. Unknown names mean the default.
pub open spec fn setup_reference_slot_mode_named(name: Option<Seq<char>>) -> HevcEncodeProbeSetupReferenceSlotMode {
    match name {
        None => HevcEncodeProbeSetupReferenceSlotMode::SlotZero,
        Some(n) => if n == "none"@ || n == "off"@ || n == "disable"@ || n == "disabled"@ {
            HevcEncodeProbeSetupReferenceSlotMode::NoSlot
        } else {
            HevcEncodeProbeSetupReferenceSlotMode::SlotZero
        },
    }
}

pub fn parse_hevc_encode_probe_setup_reference_slot_mode(mode: Option<&str>) -> (r: HevcEncodeProbeSetupReferenceSlotMode)
    ensures
        r == setup_reference_slot_mode_named(normalized(mode)),
{
    match normalize_option(mode) {
        None => HevcEncodeProbeSetupReferenceSlotMode::SlotZero,
        Some(text) => {
            let n = text.as_str();
            if same_text(n, "none") || same_text(n, "off") || same_text(n, "disable")
                || same_text(n, "disabled") {
                HevcEncodeProbeSetupReferenceSlotMode::NoSlot
            } else {
                HevcEncodeProbeSetupReferenceSlotMode::SlotZero
            }
        },
    }
}

/// How many slices a picture has.
#[derive(Debug, Clone, Copy, PartialEq, Eq, Structural)]
pub enum HevcEncodeProbeNaluMode {
    SingleSlice,
    Empty,
}

impl HevcEncodeProbeNaluMode {
    pub open spec fn label(self) -> Seq<char> {
        match self {
            HevcEncodeProbeNaluMode::SingleSlice => "single-slice"@,
            HevcEncodeProbeNaluMode::Empty => "empty"@,
        }
    }
}

pub fn hevc_encode_probe_nalu_mode_label(mode: HevcEncodeProbeNaluMode) -> (r: &'static str)
    ensures
        r@ == mode.label(),
{
    match mode {
        HevcEncodeProbeNaluMode::SingleSlice => "single-slice",
        HevcEncodeProbeNaluMode::Empty => "empty",
    }
}

/// The value that a normalised name stands for. Unknown names mean the default.
pub open spec fn nalu_mode_named(name: Option<Seq<char>>) -> HevcEncodeProbeNaluMode {
    match name {
        None => HevcEncodeProbeNaluMode::SingleSlice,
        Some(n) => if n == "empty"@ || n == "none"@ || n == "off"@ || n == "no-slices"@
            || n == "no_slices"@ {
            HevcEncodeProbeNaluMode::Empty
        } else {
            HevcEncodeProbeNaluMode::SingleSlice
        },
    }
}

pub fn parse_hevc_encode_probe_nalu_mode(mode: Option<&str>) -> (r: HevcEncodeProbeNaluMode)
    ensures
        r == nalu_mode_named(normalized(mode)),
{
    match normalize_option(mode) {
        None => HevcEncodeProbeNaluMode::SingleSlice,
        Some(text) => {
            let n = text.as_str();
            if same_text(n, "empty") || same_text(n, "none") || same_text(n, "off")
                || same_text(n, "no-slices") || same_text(n, "no_slices") {
                HevcEncodeProbeNaluMode::Empty
            } else {
                HevcEncodeProbeNaluMode::SingleSlice
            }
        },
    }
}

/// What describes the picture.
#[derive(Debug, Clone, Copy, PartialEq, Eq, Structural)]
pub enum HevcEncodeProbeCodecInfoMode {
    WithH265Info,
    WithH265InfoStdPictureOnly,
    WithH265InfoEmptyStdPicture,
    WithH265InfoMinimal,
    WithH265InfoNoStdPicture,
    WithoutH265Info,
}

impl HevcEncodeProbeCodecInfoMode {
    pub open spec fn label(self) -> Seq<char> {
        match self {
            HevcEncodeProbeCodecInfoMode::WithH265Info => "with-h265-info"@,
            HevcEncodeProbeCodecInfoMode::WithH265InfoStdPictureOnly => "with-h265-info-std-picture-only"@,
            HevcEncodeProbeCodecInfoMode::WithH265InfoEmptyStdPicture => "with-h265-info-empty-std-picture"@,
            HevcEncodeProbeCodecInfoMode::WithH265InfoMinimal => "with-h265-info-minimal"@,
            HevcEncodeProbeCodecInfoMode::WithH265InfoNoStdPicture => "with-h265-info-no-std-picture"@,
            HevcEncodeProbeCodecInfoMode::WithoutH265Info => "without-h265-info"@,
        }
    }
}

pub fn hevc_encode_probe_codec_info_mode_label(mode: HevcEncodeProbeCodecInfoMode) -> (r: &'static str)
    ensures
        r@ == mode.label(),
{
    match mode {
        HevcEncodeProbeCodecInfoMode::WithH265Info => "with-h265-info",
        HevcEncodeProbeCodecInfoMode::WithH265InfoStdPictureOnly => "with-h265-info-std-picture-only",
        HevcEncodeProbeCodecInfoMode::WithH265InfoEmptyStdPicture => "with-h265-info-empty-std-picture",
        HevcEncodeProbeCodecInfoMode::WithH265InfoMinimal => "with-h265-info-minimal",
        HevcEncodeProbeCodecInfoMode::WithH265InfoNoStdPicture => "with-h265-info-no-std-picture",
        HevcEncodeProbeCodecInfoMode::WithoutH265Info => "without-h265-info",
    }
}

/// The value that a normalised name stands for. Unknown names mean the default.
pub open spec fn codec_info_mode_named(name: Option<Seq<char>>) -> HevcEncodeProbeCodecInfoMode {
    match name {
        None => HevcEncodeProbeCodecInfoMode::WithH265Info,
        Some(n) => if n == "with-h265-info-std-picture-only"@
            || n == "with_h265_info_std_picture_only"@ || n == "with-h265-info-std-only"@
            || n == "with_h265_info_std_only"@ || n == "std-picture-only"@
            || n == "std_picture_only"@ || n == "std-only"@ || n == "std_only"@ || n == "std"@ {
            HevcEncodeProbeCodecInfoMode::WithH265InfoStdPictureOnly
        } else if n == "with-h265-info-empty-std-picture"@
            || n == "with_h265_info_empty_std_picture"@ || n == "with-h265-info-empty-std"@
            || n == "with_h265_info_empty_std"@ || n == "with-h265-empty-std"@
            || n == "with_h265_empty_std"@ || n == "empty-std-picture"@
            || n == "empty_std_picture"@ || n == "empty-std"@ || n == "empty_std"@ {
            HevcEncodeProbeCodecInfoMode::WithH265InfoEmptyStdPicture
        } else if n == "with-h265-info-minimal"@ || n == "with_h265_info_minimal"@
            || n == "with-h265-minimal"@ || n == "with_h265_minimal"@ || n == "minimal-h265-info"@
            || n == "minimal_h265_info"@ || n == "minimal"@ {
            HevcEncodeProbeCodecInfoMode::WithH265InfoMinimal
        } else if n == "with-h265-info-no-std-picture"@ || n == "with_h265_info_no_std_picture"@
            || n == "with-h265-info-no-std"@ || n == "with_h265_info_no_std"@
            || n == "with-h265-no-std"@ || n == "with_h265_no_std"@ || n == "no-std-picture"@
            || n == "no_std_picture"@ || n == "nostd"@ {
            HevcEncodeProbeCodecInfoMode::WithH265InfoNoStdPicture
        } else if n == "without"@ || n == "without-h265"@ || n == "without_h265"@
            || n == "without-h265-info"@ || n == "without_h265_info"@ || n == "none"@
            || n == "off"@ || n == "disable"@ || n == "disabled"@ {
            HevcEncodeProbeCodecInfoMode::WithoutH265Info
        } else {
            HevcEncodeProbeCodecInfoMode::WithH265Info
        },
    }
}

pub fn parse_hevc_encode_probe_codec_info_mode(mode: Option<&str>) -> (r: HevcEncodeProbeCodecInfoMode)
    ensures
        r == codec_info_mode_named(normalized(mode)),
{
    match normalize_option(mode) {
        None => HevcEncodeProbeCodecInfoMode::WithH265Info,
        Some(text) => {
            let n = text.as_str();
            if same_text(n, "with-h265-info-std-picture-only")
                || same_text(n, "with_h265_info_std_picture_only")
                || same_text(n, "with-h265-info-std-only")
                || same_text(n, "with_h265_info_std_only") || same_text(n, "std-picture-only")
                || same_text(n, "std_picture_only") || same_text(n, "std-only")
                || same_text(n, "std_only") || same_text(n, "std") {
                HevcEncodeProbeCodecInfoMode::WithH265InfoStdPictureOnly
            } else if same_text(n, "with-h265-info-empty-std-picture")
                || same_text(n, "with_h265_info_empty_std_picture")
                || same_text(n, "with-h265-info-empty-std")
                || same_text(n, "with_h265_info_empty_std") || same_text(n, "with-h265-empty-std")
                || same_text(n, "with_h265_empty_std") || same_text(n, "empty-std-picture")
                || same_text(n, "empty_std_picture") || same_text(n, "empty-std")
                || same_text(n, "empty_std") {
                HevcEncodeProbeCodecInfoMode::WithH265InfoEmptyStdPicture
            } else if same_text(n, "with-h265-info-minimal")
                || same_text(n, "with_h265_info_minimal") || same_text(n, "with-h265-minimal")
                || same_text(n, "with_h265_minimal") || same_text(n, "minimal-h265-info")
                || same_text(n, "minimal_h265_info") || same_text(n, "minimal") {
                HevcEncodeProbeCodecInfoMode::WithH265InfoMinimal
            } else if same_text(n, "with-h265-info-no-std-picture")
                || same_text(n, "with_h265_info_no_std_picture")
                || same_text(n, "with-h265-info-no-std") || same_text(n, "with_h265_info_no_std")
                || same_text(n, "with-h265-no-std") || same_text(n, "with_h265_no_std")
                || same_text(n, "no-std-picture") || same_text(n, "no_std_picture")
                || same_text(n, "nostd") {
                HevcEncodeProbeCodecInfoMode::WithH265InfoNoStdPicture
            } else if same_text(n, "without") || same_text(n, "without-h265")
                || same_text(n, "without_h265") || same_text(n, "without-h265-info")
                || same_text(n, "without_h265_info") || same_text(n, "none")
                || same_text(n, "off") || same_text(n, "disable") || same_text(n, "disabled") {
                HevcEncodeProbeCodecInfoMode::WithoutH265Info
            } else {
                HevcEncodeProbeCodecInfoMode::WithH265Info
            }
        },
    }
}

/// Whether the picture serves as a reference.
#[derive(Debug, Clone, Copy, PartialEq, Eq, Structural)]
pub enum HevcEncodeProbePictureFlagsMode {
    Default,
    NonReference,
}

impl HevcEncodeProbePictureFlagsMode {
    pub open spec fn label(self) -> Seq<char> {
        match self {
            HevcEncodeProbePictureFlagsMode::Default => "default"@,
            HevcEncodeProbePictureFlagsMode::NonReference => "non-reference"@,
        }
    }
}

pub fn hevc_encode_probe_picture_flags_mode_label(mode: HevcEncodeProbePictureFlagsMode) -> (r: &'static str)
    ensures
        r@ == mode.label(),
{
    match mode {
        HevcEncodeProbePictureFlagsMode::Default => "default",
        HevcEncodeProbePictureFlagsMode::NonReference => "non-reference",
    }
}

/// The value that a normalised name stands for. Unknown names mean the default.
pub open spec fn picture_flags_mode_named(name: Option<Seq<char>>) -> HevcEncodeProbePictureFlagsMode {
    match name {
        None => HevcEncodeProbePictureFlagsMode::Default,
        Some(n) => if n == "non-reference"@ || n == "non_reference"@ || n == "nonref"@
            || n == "non-ref"@ || n == "non_ref"@ || n == "p-frame-like"@ || n == "p_frame_like"@ {
            HevcEncodeProbePictureFlagsMode::NonReference
        } else {
            HevcEncodeProbePictureFlagsMode::Default
        },
    }
}

pub fn parse_hevc_encode_probe_picture_flags_mode(mode: Option<&str>) -> (r: HevcEncodeProbePictureFlagsMode)
    ensures
        r == picture_flags_mode_named(normalized(mode)),
{
    match normalize_option(mode) {
        None => HevcEncodeProbePictureFlagsMode::Default,
        Some(text) => {
            let n = text.as_str();
            if same_text(n, "non-reference") || same_text(n, "non_reference")
                || same_text(n, "nonref") || same_text(n, "non-ref") || same_text(n, "non_ref")
                || same_text(n, "p-frame-like") || same_text(n, "p_frame_like") {
                HevcEncodeProbePictureFlagsMode::NonReference
            } else {
                HevcEncodeProbePictureFlagsMode::Default
            }
        },
    }
}

/// What kind of picture is encoded.
#[derive(Debug, Clone, Copy, PartialEq, Eq, Structural)]
pub enum HevcEncodeProbePictureInfoMode {
    Default,
    IntraI,
    InterP,
    Temporal1,
    Poc1,
}

impl HevcEncodeProbePictureInfoMode {
    pub open spec fn label(self) -> Seq<char> {
        match self {
            HevcEncodeProbePictureInfoMode::Default => "default"@,
            HevcEncodeProbePictureInfoMode::IntraI => "intra-i"@,
            HevcEncodeProbePictureInfoMode::InterP => "inter-p"@,
            HevcEncodeProbePictureInfoMode::Temporal1 => "temporal-1"@,
            HevcEncodeProbePictureInfoMode::Poc1 => "poc-1"@,
        }
    }
}

pub fn hevc_encode_probe_picture_info_mode_label(mode: HevcEncodeProbePictureInfoMode) -> (r: &'static str)
    ensures
        r@ == mode.label(),
{
    match mode {
        HevcEncodeProbePictureInfoMode::Default => "default",
        HevcEncodeProbePictureInfoMode::IntraI => "intra-i",
        HevcEncodeProbePictureInfoMode::InterP => "inter-p",
        HevcEncodeProbePictureInfoMode::Temporal1 => "temporal-1",
        HevcEncodeProbePictureInfoMode::Poc1 => "poc-1",
    }
}

/// The value that a normalised name stands for. Unknown names mean the default.
pub open spec fn picture_info_mode_named(name: Option<Seq<char>>) -> HevcEncodeProbePictureInfoMode {
    match name {
        None => HevcEncodeProbePictureInfoMode::Default,
        Some(n) => if n == "intra-i"@ || n == "intra_i"@ || n == "intra"@ || n == "i"@
            || n == "i-frame"@ || n == "i_frame"@ {
            HevcEncodeProbePictureInfoMode::IntraI
        } else if n == "inter-p"@ || n == "inter_p"@ || n == "inter"@ || n == "p"@
            || n == "p-frame"@ || n == "p_frame"@ {
            HevcEncodeProbePictureInfoMode::InterP
        } else if n == "temporal-1"@ || n == "temporal_1"@ || n == "temporal1"@ || n == "tid-1"@
            || n == "tid_1"@ || n == "t1"@ {
            HevcEncodeProbePictureInfoMode::Temporal1
        } else if n == "poc-1"@ || n == "poc_1"@ || n == "poc1"@ || n == "poc-plus-one"@
            || n == "poc_plus_one"@ {
            HevcEncodeProbePictureInfoMode::Poc1
        } else {
            HevcEncodeProbePictureInfoMode::Default
        },
    }
}

pub fn parse_hevc_encode_probe_picture_info_mode(mode: Option<&str>) -> (r: HevcEncodeProbePictureInfoMode)
    ensures
        r == picture_info_mode_named(normalized(mode)),
{
    match normalize_option(mode) {
        None => HevcEncodeProbePictureInfoMode::Default,
        Some(text) => {
            let n = text.as_str();
            if same_text(n, "intra-i") || same_text(n, "intra_i") || same_text(n, "intra")
                || same_text(n, "i") || same_text(n, "i-frame") || same_text(n, "i_frame") {
                HevcEncodeProbePictureInfoMode::IntraI
            } else if same_text(n, "inter-p") || same_text(n, "inter_p") || same_text(n, "inter")
                || same_text(n, "p") || same_text(n, "p-frame") || same_text(n, "p_frame") {
                HevcEncodeProbePictureInfoMode::InterP
            } else if same_text(n, "temporal-1") || same_text(n, "temporal_1")
                || same_text(n, "temporal1") || same_text(n, "tid-1") || same_text(n, "tid_1")
                || same_text(n, "t1") {
                HevcEncodeProbePictureInfoMode::Temporal1
            } else if same_text(n, "poc-1") || same_text(n, "poc_1") || same_text(n, "poc1")
                || same_text(n, "poc-plus-one") || same_text(n, "poc_plus_one") {
                HevcEncodeProbePictureInfoMode::Poc1
            } else {
                HevcEncodeProbePictureInfoMode::Default
            }
        },
    }
}

/// Which size the pictures are given.
#[derive(Debug, Clone, Copy, PartialEq, Eq, Structural)]
pub enum HevcEncodeProbePictureResourceExtentMode {
    Coded,
    ImageAligned,
}

impl HevcEncodeProbePictureResourceExtentMode {
    pub open spec fn label(self) -> Seq<char> {
        match self {
            HevcEncodeProbePictureResourceExtentMode::Coded => "coded"@,
            HevcEncodeProbePictureResourceExtentMode::ImageAligned => "image-aligned"@,
        }
    }
}

pub fn hevc_encode_probe_picture_resource_extent_mode_label(mode: HevcEncodeProbePictureResourceExtentMode) -> (r: &'static str)
    ensures
        r@ == mode.label(),
{
    match mode {
        HevcEncodeProbePictureResourceExtentMode::Coded => "coded",
        HevcEncodeProbePictureResourceExtentMode::ImageAligned => "image-aligned",
    }
}

/// The value that a normalised name stands for. Unknown names mean the default.
pub open spec fn picture_resource_extent_mode_named(name: Option<Seq<char>>) -> HevcEncodeProbePictureResourceExtentMode {
    match name {
        None => HevcEncodeProbePictureResourceExtentMode::Coded,
        Some(n) => if n == "image"@ || n == "image-aligned"@ || n == "image_aligned"@
            || n == "aligned"@ || n == "align"@ || n == "pad"@ || n == "padded"@ || n == "1"@ {
            HevcEncodeProbePictureResourceExtentMode::ImageAligned
        } else {
            HevcEncodeProbePictureResourceExtentMode::Coded
        },
    }
}

pub fn parse_hevc_encode_probe_picture_resource_extent_mode(mode: Option<&str>) -> (r: HevcEncodeProbePictureResourceExtentMode)
    ensures
        r == picture_resource_extent_mode_named(normalized(mode)),
{
    match normalize_option(mode) {
        None => HevcEncodeProbePictureResourceExtentMode::Coded,
        Some(text) => {
            let n = text.as_str();
            if same_text(n, "image") || same_text(n, "image-aligned")
                || same_text(n, "image_aligned") || same_text(n, "aligned")
                || same_text(n, "align") || same_text(n, "pad") || same_text(n, "padded")
                || same_text(n, "1") {
                HevcEncodeProbePictureResourceExtentMode::ImageAligned
            } else {
                HevcEncodeProbePictureResourceExtentMode::Coded
            }
        },
    }
}

} // verus!
