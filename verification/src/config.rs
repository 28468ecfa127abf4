//! Decoder and encoder settings.

use crate::text::{bool_chars, bool_text, optional_decimal, optional_decimal_text};
use crate::text::{signed_decimal, signed_text, optional};
use crate::types::{Codec, DecodeOutputMode, EncodeInputFormat, SessionSwitchMode};
use vstd::prelude::*;
use vstd::string::*;

verus! {

#[derive(Debug, Clone)]
pub struct VtDecoderOptions {
    pub report_metrics: Option<bool>,
    pub enable_pipeline_scheduler: Option<bool>,
    pub pipeline_queue_capacity: Option<usize>,
    pub video_width: Option<u16>,
    pub video_height: Option<u16>,
    pub av1c_record: Option<Vec<u8>>,
    pub av1_config_obus: Option<Vec<u8>>,
}

impl Default for VtDecoderOptions {
    fn default() -> (r: Self)
        ensures
            r.report_metrics is None,
            r.enable_pipeline_scheduler is None,
            r.pipeline_queue_capacity is None,
            r.video_width is None,
            r.video_height is None,
            r.av1c_record is None,
            r.av1_config_obus is None,
    {
        VtDecoderOptions {
            report_metrics: None,
            enable_pipeline_scheduler: None,
            pipeline_queue_capacity: None,
            video_width: None,
            video_height: None,
            av1c_record: None,
            av1_config_obus: None,
        }
    }
}

#[derive(Debug, Clone)]
pub struct NvidiaDecoderOptions {
    pub report_metrics: Option<bool>,
}

impl Default for NvidiaDecoderOptions {
    fn default() -> (r: Self)
        ensures
            r.report_metrics is None,
    {
        NvidiaDecoderOptions {
            report_metrics: None,
        }
    }
}

#[derive(Debug, Clone)]
pub struct VtEncoderOptions {
    pub report_metrics: Option<bool>,
    pub enable_pipeline_scheduler: Option<bool>,
    pub pipeline_queue_capacity: Option<usize>,
}

impl Default for VtEncoderOptions {
    fn default() -> (r: Self)
        ensures
            r.report_metrics is None,
            r.enable_pipeline_scheduler is None,
            r.pipeline_queue_capacity is None,
    {
        VtEncoderOptions {
            report_metrics: None,
            enable_pipeline_scheduler: None,
            pipeline_queue_capacity: None,
        }
    }
}

#[derive(Debug, Clone)]
pub struct IntelDecoderOptions {
    pub force_software: bool,
}

impl Default for IntelDecoderOptions {
    fn default() -> (r: Self)
        ensures
            !r.force_software,
    {
        IntelDecoderOptions {
            force_software: false,
        }
    }
}

#[derive(Debug, Clone)]
pub struct VulkanDecoderOptions {
    pub allow_software_fallback: Option<bool>,
    pub adapter_index: Option<usize>,
}

impl Default for VulkanDecoderOptions {
    fn default() -> (r: Self)
        ensures
            r.allow_software_fallback is None,
            r.adapter_index is None,
    {
        VulkanDecoderOptions {
            allow_software_fallback: None,
            adapter_index: None,
        }
    }
}

#[derive(Debug, Clone)]
pub struct AndroidDecoderOptions {
    pub codec_name: Option<String>,
    pub video_width: Option<u16>,
    pub video_height: Option<u16>,
    pub timeout_us: i64,
}

impl Default for AndroidDecoderOptions {
    fn default() -> (r: Self)
        ensures
            r.codec_name is None,
            r.video_width is None,
            r.video_height is None,
            r.timeout_us == 10_000,
    {
        AndroidDecoderOptions {
            codec_name: None,
            video_width: None,
            video_height: None,
            timeout_us: 10_000,
        }
    }
}

#[derive(Debug, Clone)]
pub struct NvidiaEncoderOptions {
    pub max_in_flight_outputs: usize,
    pub gop_length: Option<u32>,
    pub frame_interval_p: Option<i32>,
    pub target_bitrate: Option<u32>,
    pub report_metrics: Option<bool>,
    pub safe_lifetime_mode: Option<bool>,
    pub enable_pipeline_scheduler: Option<bool>,
    pub pipeline_queue_capacity: Option<usize>,
}

impl Default for NvidiaEncoderOptions {
    fn default() -> (r: Self)
        ensures
            r.max_in_flight_outputs == 6,
            r.gop_length is None,
            r.frame_interval_p is None,
            r.target_bitrate is None,
            r.report_metrics is None,
            r.safe_lifetime_mode is None,
            r.enable_pipeline_scheduler is None,
            r.pipeline_queue_capacity is None,
    {
        NvidiaEncoderOptions {
            max_in_flight_outputs: 6,
            gop_length: None,
            frame_interval_p: None,
            target_bitrate: None,
            report_metrics: None,
            safe_lifetime_mode: None,
            enable_pipeline_scheduler: None,
            pipeline_queue_capacity: None,
        }
    }
}

#[derive(Debug, Clone)]
pub struct IntelEncoderOptions {
    pub target_kbps: Option<u16>,
    pub gop_length: Option<u16>,
    pub force_software: bool,
    pub hevc_use_vpp: Option<bool>,
}

impl Default for IntelEncoderOptions {
    fn default() -> (r: Self)
        ensures
            r.target_kbps is None,
            r.gop_length is None,
            !r.force_software,
            r.hevc_use_vpp is None,
    {
        IntelEncoderOptions {
            target_kbps: None,
            gop_length: None,
            force_software: false,
            hevc_use_vpp: None,
        }
    }
}

#[derive(Debug, Clone)]
pub struct VulkanEncoderOptions {
    pub allow_software_fallback: Option<bool>,
    pub adapter_index: Option<usize>,
}

impl Default for VulkanEncoderOptions {
    fn default() -> (r: Self)
        ensures
            r.allow_software_fallback is None,
            r.adapter_index is None,
    {
        VulkanEncoderOptions {
            allow_software_fallback: None,
            adapter_index: None,
        }
    }
}

#[derive(Debug, Clone)]
pub struct AndroidEncoderOptions {
    pub codec_name: Option<String>,
    pub bitrate: Option<u32>,
    pub i_frame_interval_sec: Option<i32>,
    pub timeout_us: i64,
}

impl Default for AndroidEncoderOptions {
    fn default() -> (r: Self)
        ensures
            r.codec_name is None,
            r.bitrate is None,
            r.i_frame_interval_sec == Some(1i32),
            r.timeout_us == 10_000,
    {
        AndroidEncoderOptions {
            codec_name: None,
            bitrate: None,
            i_frame_interval_sec: Some(1),
            timeout_us: 10_000,
        }
    }
}

#[derive(Debug, Clone)]
pub enum BackendDecoderOptions {
    Default,
    VideoToolbox(VtDecoderOptions),
    Nvidia(NvidiaDecoderOptions),
    Intel(IntelDecoderOptions),
    Vulkan(VulkanDecoderOptions),
    Android(AndroidDecoderOptions),
}

impl Default for BackendDecoderOptions {
    fn default() -> (r: Self)
        ensures
            r is Default,
    {
        BackendDecoderOptions::Default
    }
}

#[derive(Debug, Clone)]
pub enum BackendEncoderOptions {
    Default,
    VideoToolbox(VtEncoderOptions),
    Nvidia(NvidiaEncoderOptions),
    Intel(IntelEncoderOptions),
    Vulkan(VulkanEncoderOptions),
    Android(AndroidEncoderOptions),
}

impl Default for BackendEncoderOptions {
    fn default() -> (r: Self)
        ensures
            r is Default,
    {
        BackendEncoderOptions::Default
    }
}

#[derive(Debug, Clone)]
pub struct DecoderConfig {
    pub codec: Codec,
    pub fps: i32,
    pub require_hardware: bool,
    pub output_mode: DecodeOutputMode,
    pub backend_options: BackendDecoderOptions,
}

impl DecoderConfig {
    pub fn new(
        codec: Codec,
        fps: i32,
        require_hardware: bool,
    ) -> (r: Self)
        ensures
            r.codec == codec,
            r.fps == fps,
            r.require_hardware == require_hardware,
            r.output_mode == DecodeOutputMode::Metadata,
            r.backend_options is Default,
    {
        DecoderConfig {
            codec,
            fps,
            require_hardware,
            output_mode: DecodeOutputMode::Metadata,
            backend_options: BackendDecoderOptions::Default,
        }
    }

    pub open spec fn text(self) -> Seq<char> {
        "DecoderConfig(codec="@ + self.codec.text() + ", fps="@ + signed_decimal(self.fps as int)
            + ", require_hardware="@ + bool_chars(self.require_hardware) + ", output_mode="@
            + self.output_mode.text() + ")"@
    }

    pub fn to_string(&self) -> (r: String)
        ensures
            r@ == self.text(),
    {
        String::from_str("DecoderConfig(codec=").concat(self.codec.to_string().as_str()).concat(
            ", fps=",
        ).concat(signed_text(self.fps as i64).as_str()).concat(", require_hardware=").concat(
            bool_text(self.require_hardware),
        ).concat(", output_mode=").concat(self.output_mode.to_string().as_str()).concat(")")
    }
}

#[derive(Debug, Clone)]
pub struct EncoderConfig {
    pub codec: Codec,
    pub fps: i32,
    pub require_hardware: bool,
    pub input_format: EncodeInputFormat,
    pub backend_options: BackendEncoderOptions,
}

impl EncoderConfig {
    pub fn new(
        codec: Codec,
        fps: i32,
        require_hardware: bool,
        input_format: EncodeInputFormat,
    ) -> (r: Self)
        ensures
            r.codec == codec,
            r.fps == fps,
            r.require_hardware == require_hardware,
            r.input_format == input_format,
            r.backend_options is Default,
    {
        EncoderConfig {
            codec,
            fps,
            require_hardware,
            input_format: input_format,
            backend_options: BackendEncoderOptions::Default,
        }
    }

    pub open spec fn text(self) -> Seq<char> {
        "EncoderConfig(codec="@ + self.codec.text() + ", fps="@ + signed_decimal(self.fps as int)
            + ", require_hardware="@ + bool_chars(self.require_hardware) + ", input_format="@
            + self.input_format.text() + ")"@
    }

    pub fn to_string(&self) -> (r: String)
        ensures
            r@ == self.text(),
    {
        String::from_str("EncoderConfig(codec=").concat(self.codec.to_string().as_str()).concat(
            ", fps=",
        ).concat(signed_text(self.fps as i64).as_str()).concat(", require_hardware=").concat(
            bool_text(self.require_hardware),
        ).concat(", input_format=").concat(self.input_format.to_string().as_str()).concat(")")
    }
}

#[derive(Debug, Clone)]
pub struct NvidiaSessionConfig {
    pub gop_length: Option<u32>,
    pub frame_interval_p: Option<i32>,
    pub force_idr_on_activate: bool,
}

impl NvidiaSessionConfig {
    pub open spec fn text(self) -> Seq<char> {
        "NvidiaSessionConfig(gop_length="@ + optional_decimal(
            match self.gop_length {
                None => None,
                Some(n) => Some(n as nat),
            },
        ) + ", frame_interval_p="@ + optional(
            match self.frame_interval_p {
                None => None,
                Some(n) => Some(signed_decimal(n as int)),
            },
        ) + ", force_idr_on_activate="@ + bool_chars(self.force_idr_on_activate) + ")"@
    }

    pub fn to_string(&self) -> (r: String)
        ensures
            r@ == self.text(),
    {
        let gop = optional_decimal_text(
            match self.gop_length {
                None => None,
                Some(n) => Some(n as u64),
            },
        );
        let interval = match self.frame_interval_p {
            None => String::from_str("None"),
            Some(n) => String::from_str("Some(").concat(signed_text(n as i64).as_str()).concat(")"),
        };
        String::from_str("NvidiaSessionConfig(gop_length=").concat(gop.as_str()).concat(
            ", frame_interval_p=",
        ).concat(interval.as_str()).concat(", force_idr_on_activate=").concat(
            bool_text(self.force_idr_on_activate),
        ).concat(")")
    }
}

#[derive(Debug, Clone)]
pub struct VtSessionConfig {
    pub force_keyframe_on_activate: bool,
}

impl VtSessionConfig {
    pub open spec fn text(self) -> Seq<char> {
        "VtSessionConfig(force_keyframe_on_activate="@ + bool_chars(self.force_keyframe_on_activate)
            + ")"@
    }

    pub fn to_string(&self) -> (r: String)
        ensures
            r@ == self.text(),
    {
        String::from_str("VtSessionConfig(force_keyframe_on_activate=").concat(
            bool_text(self.force_keyframe_on_activate),
        ).concat(")")
    }
}

#[derive(Debug, Clone)]
pub enum SessionSwitchRequest {
    Nvidia { config: NvidiaSessionConfig, mode: SessionSwitchMode },
    VideoToolbox { config: VtSessionConfig, mode: SessionSwitchMode },
}

impl SessionSwitchRequest {
    pub open spec fn text(self) -> Seq<char> {
        match self {
            SessionSwitchRequest::Nvidia { config, mode } => "SessionSwitchRequest::Nvidia("@
                + config.text() + ", mode="@ + mode.text() + ")"@,
            SessionSwitchRequest::VideoToolbox { config, mode } =>
                "SessionSwitchRequest::VideoToolbox("@ + config.text() + ", mode="@ + mode.text()
                + ")"@,
        }
    }

    pub fn to_string(&self) -> (r: String)
        ensures
            r@ == self.text(),
    {
        match self {
            SessionSwitchRequest::Nvidia { config, mode } => String::from_str(
                "SessionSwitchRequest::Nvidia(",
            ).concat(config.to_string().as_str()).concat(", mode=").concat(
                mode.to_string().as_str(),
            ).concat(")"),
            SessionSwitchRequest::VideoToolbox { config, mode } => String::from_str(
                "SessionSwitchRequest::VideoToolbox(",
            ).concat(config.to_string().as_str()).concat(", mode=").concat(
                mode.to_string().as_str(),
            ).concat(")"),
        }
    }
}

} // verus!
