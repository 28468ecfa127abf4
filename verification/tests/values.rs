use std::sync::Arc;
use video_hw::bitstream::{BitstreamError, NalLengthSize};
use video_hw::capability::{
    CapabilityContract, CapabilityReport, DecodeCapability, DecodeOutputCapability,
    DecodeOutputOrigin, DimensionConstraints, EncodeCapability, FallbackPolicy, RuntimeCapability,
    RuntimeStatus, StreamingMode,
};
use video_hw::config::{
    AndroidDecoderOptions, AndroidEncoderOptions, BackendDecoderOptions, BackendEncoderOptions,
    DecoderConfig, EncoderConfig, IntelEncoderOptions, NvidiaEncoderOptions, NvidiaSessionConfig,
    SessionSwitchRequest, VtDecoderOptions, VtSessionConfig,
};
use video_hw::error::{BackendError, BackendErrorKind};
use video_hw::frame::{
    DecodeSummary, DecodedFrame, EncodedChunk, EncodedPacket, Frame, RawFrameBuffer, VideoDecoder,
    VideoEncoder,
};
use video_hw::nonzero::NonZeroU32;
use video_hw::order::order_by_key;
use video_hw::pixel::{
    check_argb_payload, nv12_from_planes, nv12_to_rgb24, yuv_to_rgb, ColorConvertOptions,
    ColorMatrix, ColorRange, Nv12Frame, PixelOutputLayout,
};
use video_hw::text::{
    bool_text, decimal_text, hex_text, join_text, normalize_option, optional_decimal_text,
    same_text, signed_text, upper_hex_text,
};
use video_hw::types::{
    Codec, DecodeOutputMode, Dimensions, EncodeInputFormat, EncodedLayout, SessionSwitchMode,
    Timestamp90k,
};

fn dims(width: u32, height: u32) -> Dimensions {
    Dimensions {
        width: NonZeroU32::new(width).unwrap(),
        height: NonZeroU32::new(height).unwrap(),
    }
}

#[test]
fn numbers_become_text() {
    assert_eq!(decimal_text(0), "0");
    assert_eq!(decimal_text(u64::MAX), u64::MAX.to_string());
    assert_eq!(signed_text(i64::MIN), i64::MIN.to_string());
    assert_eq!(signed_text(-7), "-7");
    assert_eq!(upper_hex_text(0xAB01), "AB01");
    assert_eq!(hex_text(&[0x0a, 0xff]), "0aff");
    assert_eq!(bool_text(true), "true");
    assert_eq!(optional_decimal_text(Some(3)), "Some(3)");
    assert_eq!(optional_decimal_text(None), "None");
    assert_eq!(join_text(&vec!["a".to_string(), "b".to_string()], "; "), "a; b");
    assert_eq!(join_text(&vec![], "; "), "");
    assert!(same_text("x", "x") && !same_text("x", "y"));
}

#[test]
fn option_values_are_normalised() {
    assert_eq!(normalize_option(None), None);
    assert_eq!(normalize_option(Some(" \t\n")), None);
    assert_eq!(normalize_option(Some("  AbC-\u{c4} ")), Some("abc-\u{c4}".to_string()));
}

#[test]
fn values_show_themselves() {
    assert_eq!(Codec::Hevc.to_string(), "hevc");
    assert_eq!(EncodedLayout::AnnexB.to_string(), "annexb");
    assert_eq!(EncodeInputFormat::Argb8888.to_string(), "argb8888");
    assert_eq!(DecodeOutputMode::Rgb24.to_string(), "rgb24");
    assert_eq!(SessionSwitchMode::DrainThenSwap.to_string(), "drain_then_swap");
    assert_eq!(Timestamp90k(-5).to_string(), "-5@90k");
    assert_eq!(dims(640, 360).to_string(), "640x360");
    assert!(NonZeroU32::new(0).is_none());
    assert_eq!(
        DecoderConfig::new(Codec::H264, 30, true).to_string(),
        "DecoderConfig(codec=h264, fps=30, require_hardware=true, output_mode=metadata)"
    );
    assert_eq!(
        EncoderConfig::new(Codec::Av1, -1, false, EncodeInputFormat::Nv12).to_string(),
        "EncoderConfig(codec=av1, fps=-1, require_hardware=false, input_format=nv12)"
    );
    let nvidia = NvidiaSessionConfig {
        gop_length: Some(60),
        frame_interval_p: Some(-1),
        force_idr_on_activate: true,
    };
    assert_eq!(
        SessionSwitchRequest::Nvidia { config: nvidia, mode: SessionSwitchMode::Immediate }
            .to_string(),
        "SessionSwitchRequest::Nvidia(NvidiaSessionConfig(gop_length=Some(60), frame_interval_p=Some(-1), force_idr_on_activate=true), mode=immediate)"
    );
    let vt = VtSessionConfig { force_keyframe_on_activate: false };
    assert_eq!(
        SessionSwitchRequest::VideoToolbox { config: vt, mode: SessionSwitchMode::OnNextKeyframe }
            .to_string(),
        "SessionSwitchRequest::VideoToolbox(VtSessionConfig(force_keyframe_on_activate=false), mode=on_next_keyframe)"
    );
    let summary =
        DecodeSummary { decoded_frames: 2, width: Some(4), height: None, pixel_format: Some(7) };
    assert_eq!(
        summary.to_string(),
        "DecodeSummary(decoded_frames=2, width=Some(4), height=None, pixel_format=Some(7))"
    );
}

#[test]
fn defaults_are_set() {
    assert_eq!(AndroidDecoderOptions::default().timeout_us, 10_000);
    assert_eq!(AndroidEncoderOptions::default().i_frame_interval_sec, Some(1));
    assert_eq!(NvidiaEncoderOptions::default().max_in_flight_outputs, 6);
    assert!(!IntelEncoderOptions::default().force_software);
    assert!(VtDecoderOptions::default().av1c_record.is_none());
    assert!(matches!(BackendDecoderOptions::default(), BackendDecoderOptions::Default));
    assert!(matches!(BackendEncoderOptions::default(), BackendEncoderOptions::Default));
    assert_eq!(DimensionConstraints::default().width_alignment, 1);
    assert_eq!(ColorConvertOptions::default().matrix, ColorMatrix::Bt709);
    assert_eq!(ColorConvertOptions::default().range, ColorRange::Limited);
    assert_eq!(DecodeOutputMode::default(), DecodeOutputMode::Metadata);
}

#[test]
fn errors_have_kinds_and_texts() {
    let errors = [
        (BackendError::UnsupportedCodec(Codec::Av1), "unsupported codec: Av1", false),
        (BackendError::UnsupportedConfig("m".to_string()), "unsupported config: m", true),
        (BackendError::InvalidBitstream("m".to_string()), "invalid bitstream: m", false),
        (BackendError::InvalidInput("m".to_string()), "invalid input: m", false),
        (
            BackendError::TemporaryBackpressure("m".to_string()),
            "temporary backpressure: m",
            false,
        ),
        (BackendError::DeviceLost("m".to_string()), "device lost: m", true),
        (BackendError::Backend("m".to_string()), "backend error: m", false),
    ];
    for (error, text, unavailable) in errors {
        assert_eq!(error.to_string(), text);
        assert_eq!(error.is_runtime_unavailable(), unavailable);
    }
    let error = BackendError::from(BitstreamError::OpaquePayload);
    assert_eq!(error.kind(), BackendErrorKind::InvalidBitstream);
    assert_eq!(
        error.to_string(),
        "invalid bitstream: opaque encoded payload cannot be converted"
    );
}

#[test]
fn capability_report_answers_and_shows() {
    let report = CapabilityReport {
        codec: Codec::H264,
        contract: CapabilityContract {
            decode: DecodeCapability {
                supported: true,
                output_modes: vec![
                    DecodeOutputCapability {
                        mode: DecodeOutputMode::Metadata,
                        origin: DecodeOutputOrigin::MetadataOnly,
                    },
                    DecodeOutputCapability {
                        mode: DecodeOutputMode::Nv12,
                        origin: DecodeOutputOrigin::Native,
                    },
                ],
                streaming_mode: StreamingMode::FlushOnly,
                fallback_policy: FallbackPolicy::NoFallback,
                requires_side_data: false,
                dimension_constraints: DimensionConstraints::default(),
            },
            encode: EncodeCapability {
                supported: false,
                input_formats: vec![EncodeInputFormat::Argb8888],
                encoded_layouts: vec![],
                streaming_mode: StreamingMode::FlushOnly,
                fallback_policy: FallbackPolicy::NoFallback,
                dimension_constraints: DimensionConstraints::default(),
            },
        },
        runtime: RuntimeCapability {
            status: RuntimeStatus::NotProbed,
            hardware_acceleration: false,
            reason: None,
        },
    };
    assert!(report.supports_decode_output_mode(DecodeOutputMode::Nv12));
    assert!(!report.supports_decode_output_mode(DecodeOutputMode::Rgb24));
    assert!(report.supports_encode_input_format(EncodeInputFormat::Argb8888));
    assert!(!report.supports_encoded_layout(EncodedLayout::AnnexB));
    assert_eq!(
        report.to_string(),
        "CapabilityReport(codec=h264, decode_supported=true, encode_supported=false, hw_accel=false, runtime=NotProbed, decode_outputs=[DecodeOutputCapability { mode: Metadata, origin: MetadataOnly }, DecodeOutputCapability { mode: Nv12, origin: Native }], encode_inputs=[Argb8888], encoded_layouts=[])"
    );
}

#[test]
fn colors_follow_matrix_and_range() {
    let options = |matrix, range| ColorConvertOptions { matrix, range };
    assert_eq!(
        yuv_to_rgb(81, 90, 240, options(ColorMatrix::Bt601, ColorRange::Limited)),
        (255, 0, 0)
    );
    assert_eq!(
        yuv_to_rgb(100, 110, 140, options(ColorMatrix::Bt709, ColorRange::Limited)),
        (119, 95, 60)
    );
    assert_eq!(
        yuv_to_rgb(100, 110, 140, options(ColorMatrix::Bt601, ColorRange::Full)),
        (116, 98, 68)
    );
    assert_eq!(
        yuv_to_rgb(100, 110, 140, options(ColorMatrix::Bt709, ColorRange::Full)),
        (118, 98, 66)
    );
    for matrix in [ColorMatrix::Bt601, ColorMatrix::Bt709] {
        assert_eq!(yuv_to_rgb(77, 128, 128, options(matrix, ColorRange::Full)), (77, 77, 77));
        assert_eq!(yuv_to_rgb(16, 128, 128, options(matrix, ColorRange::Limited)), (0, 0, 0));
        assert_eq!(
            yuv_to_rgb(235, 128, 128, options(matrix, ColorRange::Limited)),
            (255, 255, 255)
        );
    }
}

#[test]
fn frames_become_pixel_buffers() {
    let rgb = DecodedFrame::Rgb24 { dims: dims(2, 1), pts_90k: None, data: vec![1, 2, 3, 4, 5, 6] };
    let options = ColorConvertOptions::default();
    let data = |layout| rgb.to_pixel_buffer(layout, options).unwrap().data;
    assert_eq!(data(PixelOutputLayout::Rgb24), vec![1, 2, 3, 4, 5, 6]);
    assert_eq!(data(PixelOutputLayout::Rgba8888), vec![1, 2, 3, 255, 4, 5, 6, 255]);
    assert_eq!(data(PixelOutputLayout::Argb8888), vec![255, 1, 2, 3, 255, 4, 5, 6]);
    assert_eq!(data(PixelOutputLayout::Bgra8888), vec![3, 2, 1, 255, 6, 5, 4, 255]);
    assert!(rgb.try_as_nv12().is_none());
    assert_eq!(rgb.try_as_rgb24().unwrap().data, &[1, 2, 3, 4, 5, 6]);
    let short = DecodedFrame::Rgb24 { dims: dims(2, 2), pts_90k: None, data: vec![0; 6] };
    assert_eq!(
        short.to_pixel_buffer(PixelOutputLayout::Rgb24, options).unwrap_err().to_string(),
        "invalid input: rgb24 payload size mismatch: expected 12, got 6"
    );
    let nv12 = |pitch: usize, data: Vec<u8>| DecodedFrame::Nv12 {
        dims: dims(2, 2),
        pitch,
        pts_90k: Some(Timestamp90k(1)),
        data,
    };
    let frame = nv12(3, vec![16, 235, 9, 235, 16, 9, 128, 128, 9]);
    assert_eq!(frame.try_as_nv12().unwrap().pitch.0, 3);
    assert_eq!(
        frame.to_pixel_buffer(PixelOutputLayout::Rgb24, options).unwrap().data,
        vec![0, 0, 0, 255, 255, 255, 255, 255, 255, 0, 0, 0]
    );
    assert_eq!(
        nv12(1, vec![]).to_pixel_buffer(PixelOutputLayout::Rgb24, options).unwrap_err().to_string(),
        "invalid input: nv12 pitch is smaller than width: pitch=1, width=2"
    );
    assert_eq!(
        nv12(2, vec![0; 5])
            .to_pixel_buffer(PixelOutputLayout::Rgb24, options)
            .unwrap_err()
            .to_string(),
        "invalid input: nv12 payload size mismatch: expected at least 6, got 5"
    );
    let bare = DecodedFrame::Metadata {
        dims: None,
        pts_90k: None,
        pixel_format: None,
        decode_info_flags: None,
        color: None,
    };
    assert_eq!(
        bare.to_pixel_buffer(PixelOutputLayout::Rgb24, options).unwrap_err().to_string(),
        "unsupported config: metadata-only decoded frame has no pixel payload"
    );
}

#[test]
fn nv12_frames_become_rgb() {
    let frame = |width, height, pitch, data| Nv12Frame { width, height, pitch, pts_90k: Some(3), data };
    let rgb = nv12_to_rgb24(&frame(2, 2, 0, vec![81, 81, 81, 81, 90, 240])).unwrap();
    assert_eq!(rgb.pts_90k, Some(3));
    assert_eq!(rgb.data, vec![255, 0, 0, 255, 0, 0, 255, 0, 0, 255, 0, 0]);
    let text = |f: Nv12Frame| nv12_to_rgb24(&f).unwrap_err().to_string();
    assert_eq!(
        text(frame(0, 2, 2, vec![])),
        "invalid input: nv12 frame dimensions must be positive"
    );
    assert_eq!(
        text(frame(2, 2, 2, vec![0; 5])),
        "invalid input: nv12 data is smaller than expected"
    );
    assert_eq!(
        text(frame(2, usize::MAX, 2, vec![])),
        "invalid input: nv12 luma size overflow"
    );
    assert_eq!(
        text(frame(1, usize::MAX - 1, 1, vec![])),
        "invalid input: nv12 total size overflow"
    );
}

#[test]
fn planes_become_nv12() {
    let out = nv12_from_planes(&[1, 2, 3, 4], &[10, 20, 30, 41], &[0, 0, 0, 4], 2, 2);
    assert_eq!(out, vec![1, 2, 3, 4, 25, 1]);
    let out = nv12_from_planes(&[1, 2], &[10, 20], &[5, 5], 2, 1);
    assert_eq!(out, vec![1, 2, 15]);
    assert!(check_argb_payload(16, 2, 2).is_ok());
    assert_eq!(
        check_argb_payload(15, 2, 2).unwrap_err().to_string(),
        "invalid input: argb payload size mismatch: expected 16, got 15"
    );
    assert_eq!(
        check_argb_payload(0, 0, 2).unwrap_err().to_string(),
        "invalid input: argb frame dimensions must be positive"
    );
    assert_eq!(
        check_argb_payload(0, usize::MAX, 2).unwrap_err().to_string(),
        "invalid input: argb size overflow"
    );
}

#[test]
fn chunks_convert_themselves() {
    let chunk = |layout, data| EncodedChunk {
        codec: Codec::H264,
        layout,
        data,
        pts_90k: None,
        is_keyframe: true,
    };
    let annexb = chunk(EncodedLayout::AnnexB, vec![0, 0, 1, 5, 6]);
    assert_eq!(annexb.to_annexb().unwrap().as_bytes(), &[0, 0, 1, 5, 6]);
    assert_eq!(annexb.to_nalus().unwrap()[0].as_bytes(), &[5, 6]);
    assert_eq!(annexb.to_decode_payload().unwrap().into_inner(), vec![0, 0, 1, 5, 6]);
    let sample = annexb.to_length_prefixed_sample(NalLengthSize::Two).unwrap();
    assert_eq!(sample.as_bytes(), &[0, 2, 5, 6]);
    let avcc = chunk(EncodedLayout::Avcc, vec![0, 0, 0, 1, 9]);
    assert_eq!(avcc.to_annexb().unwrap().as_bytes(), &[0, 0, 0, 1, 9]);
    assert_eq!(
        avcc.to_length_prefixed_sample(NalLengthSize::Two).unwrap().into_inner(),
        vec![0, 0, 0, 1, 9]
    );
    let opaque = chunk(EncodedLayout::Opaque, vec![]);
    assert_eq!(
        opaque.to_length_prefixed_sample(NalLengthSize::Two),
        Err(BitstreamError::OpaquePayload)
    );
    assert!(annexb.payload_ref().is_keyframe);
}

#[test]
fn buffers_know_their_format() {
    let shared: Arc<[u8]> = Arc::from(vec![1_u8]);
    assert_eq!(
        RawFrameBuffer::Argb8888Shared(shared).input_format(),
        EncodeInputFormat::Argb8888
    );
    assert_eq!(RawFrameBuffer::Argb8888(vec![]).input_format(), EncodeInputFormat::Argb8888);
    assert_eq!(
        RawFrameBuffer::Nv12 { pitch: 1, data: vec![] }.input_format(),
        EncodeInputFormat::Nv12
    );
}

#[test]
fn ordering_is_stable() {
    let sorted = order_by_key(vec![(2, 'a'), (1, 'b'), (2, 'c'), (1, 'd')]);
    assert_eq!(sorted, vec![(1, 'b'), (1, 'd'), (2, 'a'), (2, 'c')]);
}

struct Silent;

impl VideoDecoder for Silent {
    fn query_capability(&self, codec: Codec) -> Result<CapabilityReport, BackendError> {
        Err(BackendError::UnsupportedCodec(codec))
    }

    fn push_bitstream_chunk(
        &mut self,
        _chunk: &[u8],
        _pts_90k: Option<i64>,
    ) -> Result<Vec<Frame>, BackendError> {
        Ok(vec![])
    }

    fn flush(&mut self) -> Result<Vec<Frame>, BackendError> {
        Ok(vec![])
    }

    fn decode_summary(&self) -> DecodeSummary {
        DecodeSummary { decoded_frames: 0, width: None, height: None, pixel_format: None }
    }
}

impl VideoEncoder for Silent {
    fn query_capability(&self, codec: Codec) -> Result<CapabilityReport, BackendError> {
        Err(BackendError::UnsupportedCodec(codec))
    }

    fn push_frame(&mut self, _frame: Frame) -> Result<Vec<EncodedPacket>, BackendError> {
        Ok(vec![])
    }

    fn flush(&mut self) -> Result<Vec<EncodedPacket>, BackendError> {
        Ok(vec![])
    }
}

#[test]
fn interfaces_have_defaults() {
    let mut silent = Silent;
    assert!(VideoDecoder::try_reap(&mut silent).unwrap().is_empty());
    assert!(VideoEncoder::try_reap(&mut silent).unwrap().is_empty());
    let request = SessionSwitchRequest::VideoToolbox {
        config: VtSessionConfig { force_keyframe_on_activate: true },
        mode: SessionSwitchMode::Immediate,
    };
    assert_eq!(
        silent.request_session_switch(request).unwrap_err().to_string(),
        "unsupported config: session switching is not supported by this backend"
    );
    assert_eq!(silent.pipeline_generation_hint(), None);
}
