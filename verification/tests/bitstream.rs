use video_hw::bits::{rbsp_from_ebsp, BitReader};
use video_hw::bitstream::{
    annexb_to_length_prefixed, append_annexb_nalu, classify_nalu, extract_parameter_sets,
    h264_first_mb_in_slice, hevc_first_slice_segment_in_pic_flag, length_prefixed_to_annexb,
    payload_to_annexb, payload_to_decode_payload, payload_to_nalus, read_be_nal_length,
    split_access_units, split_annexb_nalus, AccessUnitAssembler, AccessUnitAssemblerOptions, AnnexBAccessUnit,
    AnnexBAccessUnitRef, BitstreamError, BitstreamParseOptions, CopyPolicy, EncodedPayloadRef,
    LengthPrefixedSampleRef, NalLengthSize, NalUnit, NalUnitRef, NaluClassification,
    ParameterSets, ValidationLevel,
};
use video_hw::types::{Codec, EncodedLayout, Timestamp90k};

fn bytes(data: &[u8]) -> AnnexBAccessUnitRef<'_> {
    AnnexBAccessUnitRef::new(data)
}

#[test]
fn length_prefixed_roundtrip_uses_configured_length_size() {
    let annexb = AnnexBAccessUnitRef::new(&[0, 0, 0, 1, 0x67, 0x64, 0, 0, 1, 0x68]);
    let expected = [0, 0, 0, 1, 0x67, 0x64, 0, 0, 0, 1, 0x68];
    for size in [NalLengthSize::One, NalLengthSize::Two, NalLengthSize::Four] {
        let sample = annexb_to_length_prefixed(annexb, size).unwrap();
        let converted = length_prefixed_to_annexb(sample.as_ref(), size).unwrap();
        assert_eq!(converted.as_bytes(), expected);
    }
}

#[test]
fn opaque_payload_is_typed_error() {
    let payload = EncodedPayloadRef {
        codec: Codec::H264,
        layout: EncodedLayout::Opaque,
        data: &[1, 2, 3],
        is_keyframe: false,
    };
    assert_eq!(
        payload_to_annexb(payload, NalLengthSize::Four),
        Err(BitstreamError::OpaquePayload)
    );
}

#[test]
fn splitting_drops_empty_units_and_leading_bytes() {
    let data = [9, 0, 0, 1, 0, 0, 0, 1, 0x65, 0, 0, 0, 0, 1, 7];
    let units = split_annexb_nalus(bytes(&data)).unwrap();
    let views: Vec<&[u8]> = units.iter().map(|unit| unit.as_bytes()).collect();
    assert_eq!(views, vec![&[0x65, 0][..], &[7][..]]);
    assert_eq!(
        split_annexb_nalus(bytes(&[0, 0, 2])),
        Err(BitstreamError::Invalid("Annex-B payload does not contain a start code".to_string()))
    );
    assert_eq!(split_annexb_nalus(bytes(&[0, 0, 1])).unwrap().len(), 0);
}

#[test]
fn written_units_are_read_back() {
    let mut out = Vec::new();
    append_annexb_nalu(&mut out, &[0, 0, 1, 5, 6]);
    append_annexb_nalu(&mut out, &[7, 0, 0]);
    assert_eq!(out, vec![0, 0, 0, 1, 5, 6, 0, 0, 0, 1, 7, 0, 0]);
    let units = split_annexb_nalus(bytes(&out)).unwrap();
    assert_eq!(units[0].as_bytes(), &[5, 6]);
    assert_eq!(units[1].as_bytes(), &[7, 0, 0]);
    assert_eq!(NalUnit::new(vec![0, 0, 0, 1, 5]).as_bytes(), &[5]);
    assert_eq!(NalUnitRef::new(&[0, 0, 1, 5]).to_owned_nal().into_inner(), vec![5]);
}

#[test]
fn lengths_that_do_not_fit_are_refused() {
    let mut data = vec![0, 0, 1];
    data.resize(3 + 256, 7);
    assert_eq!(
        annexb_to_length_prefixed(bytes(&data), NalLengthSize::One),
        Err(BitstreamError::Invalid(
            "NAL unit length 256 does not fit in 1 bytes".to_string()
        ))
    );
    let sample = annexb_to_length_prefixed(bytes(&data), NalLengthSize::Two).unwrap();
    assert_eq!(&sample.as_bytes()[..3], &[1, 0, 7]);
    assert_eq!(NalLengthSize::from_bytes(4), Ok(NalLengthSize::Four));
    assert_eq!(
        NalLengthSize::from_bytes(3),
        Err(BitstreamError::Invalid("unsupported NAL length size: 3".to_string()))
    );
}

#[test]
fn long_lengths_keep_their_lowest_bits() {
    assert_eq!(read_be_nal_length(&[]), 0);
    assert_eq!(read_be_nal_length(&[1, 2, 3, 4]), 0x0102_0304);
    let mut bytes = vec![9; 3];
    bytes.extend_from_slice(&usize::MAX.to_be_bytes());
    assert_eq!(read_be_nal_length(&bytes), usize::MAX);
}

#[test]
fn broken_samples_are_refused() {
    let parse = |data: &[u8]| {
        length_prefixed_to_annexb(LengthPrefixedSampleRef::new(data), NalLengthSize::Two)
    };
    for data in [&[0, 0][..], &[0, 3, 1, 2][..]] {
        assert_eq!(
            parse(data),
            Err(BitstreamError::Invalid("invalid length-prefixed sample payload".to_string()))
        );
    }
    assert_eq!(
        parse(&[0, 1, 5, 9]),
        Err(BitstreamError::Invalid(
            "trailing bytes after length-prefixed sample parse".to_string()
        ))
    );
    assert_eq!(parse(&[]).unwrap().as_bytes(), &[] as &[u8]);
}

#[test]
fn emulation_prevention_is_removed() {
    assert_eq!(rbsp_from_ebsp(&[0, 0, 3, 1, 0, 0, 3, 0, 0, 3]), vec![0, 0, 1, 0, 0, 0, 0]);
    assert_eq!(rbsp_from_ebsp(&[1, 3, 0, 3]), vec![1, 3, 0, 3]);
}

#[test]
fn exp_golomb_codes_are_read() {
    let data = [0b1010_0110, 0b0100_0010, 0b1000_0000];
    let mut bits = BitReader::new(&data);
    assert_eq!(bits.read_ue(), Some(0));
    assert_eq!(bits.read_ue(), Some(1));
    assert_eq!(bits.read_ue(), Some(2));
    assert_eq!(bits.read_ue(), Some(3));
    assert_eq!(bits.read_bits(3), Some(0b001));
    assert_eq!(bits.read_bits(40), None);
    let zeros = [0; 5];
    assert_eq!(BitReader::new(&zeros).read_ue(), None);
}

#[test]
fn slices_are_told_from_boundaries() {
    assert_eq!(h264_first_mb_in_slice(&[0x65, 0x80]), Some(0));
    assert_eq!(h264_first_mb_in_slice(&[]), None);
    assert_eq!(hevc_first_slice_segment_in_pic_flag(&[0x02, 0x01, 0x80]), Some(true));
    assert_eq!(
        classify_nalu(Codec::H264, &[0x41, 0x40]),
        NaluClassification::Vcl { first_slice: Some(false) }
    );
    assert_eq!(classify_nalu(Codec::H264, &[0x09]), NaluClassification::Boundary);
    assert_eq!(classify_nalu(Codec::Hevc, &[32 << 1]), NaluClassification::Boundary);
    assert_eq!(classify_nalu(Codec::Hevc, &[48 << 1]), NaluClassification::Other);
    assert_eq!(classify_nalu(Codec::Av1, &[0x65]), NaluClassification::Other);
}

#[test]
fn access_units_keep_all_units_in_order() {
    let units: [&[u8]; 6] = [&[0x67, 1], &[0x68, 2], &[0x65, 0x80], &[0x41, 0x40], &[0x09, 3], &[0x41, 0x80]];
    let mut stream = Vec::new();
    for unit in units {
        append_annexb_nalu(&mut stream, unit);
    }
    let groups = split_access_units(Codec::H264, bytes(&stream)).unwrap();
    assert_eq!(groups.len(), 2);
    let mut together = Vec::new();
    for group in &groups {
        together.extend_from_slice(group.as_bytes());
    }
    assert_eq!(together, stream);
    assert_eq!(groups[1].as_bytes(), &[0, 0, 0, 1, 0x09, 3, 0, 0, 0, 1, 0x41, 0x80]);
    assert_eq!(split_access_units(Codec::Av1, bytes(&stream)).unwrap().len(), 1);
}

fn payload<'a>(layout: EncodedLayout, data: &'a [u8]) -> EncodedPayloadRef<'a> {
    EncodedPayloadRef { codec: Codec::Hevc, layout, data, is_keyframe: true }
}

#[test]
fn parameter_sets_are_collected_by_type() {
    let stream = [
        0, 0, 1, 32 << 1, 1, 0, 0, 1, 33 << 1, 2, 0, 0, 1, 34 << 1, 3, 0, 0, 1, 34 << 1, 4, 0, 0,
        1, 1 << 1, 5,
    ];
    let sets = extract_parameter_sets(Codec::Hevc, payload(EncodedLayout::AnnexB, &stream)).unwrap();
    assert!(!sets.is_empty());
    assert_eq!(
        sets.all(),
        vec![&[32 << 1, 1][..], &[33 << 1, 2][..], &[34 << 1, 3][..], &[34 << 1, 4][..]]
    );
    match &sets {
        ParameterSets::Hevc(sets) => assert_eq!(sets.pps.len(), 2),
        other => panic!("unexpected sets: {other:?}"),
    }
    let sample = [0, 0, 0, 2, 0x67, 9, 0, 0, 0, 1, 0x68];
    let sets = extract_parameter_sets(Codec::H264, payload(EncodedLayout::Avcc, &sample)).unwrap();
    assert_eq!(sets.all(), vec![&[0x67, 9][..], &[0x68][..]]);
    let sets = extract_parameter_sets(Codec::Av1, payload(EncodedLayout::Av1, &stream)).unwrap();
    assert_eq!(sets.all(), vec![&stream[..]]);
    assert!(extract_parameter_sets(Codec::Av1, payload(EncodedLayout::Av1, &[1, 2])).is_err());
}

#[test]
fn payloads_are_converted_by_layout() {
    let sample = [0, 0, 0, 2, 5, 6];
    assert_eq!(
        payload_to_annexb(payload(EncodedLayout::Hvcc, &sample), NalLengthSize::Four),
        Ok(AnnexBAccessUnit::new(vec![0, 0, 0, 1, 5, 6]))
    );
    let units = payload_to_nalus(payload(EncodedLayout::Hvcc, &sample), NalLengthSize::Four);
    assert_eq!(units.unwrap()[0].as_bytes(), &[5, 6]);
    let units = payload_to_nalus(payload(EncodedLayout::Av1, &sample), NalLengthSize::Four);
    assert_eq!(units.unwrap()[0].as_bytes(), &sample);
    let out = payload_to_decode_payload(payload(EncodedLayout::Av1, &sample), NalLengthSize::Four);
    assert_eq!(out.unwrap().as_bytes(), &sample);
    assert_eq!(
        payload_to_decode_payload(payload(EncodedLayout::Opaque, &sample), NalLengthSize::Four),
        Err(BitstreamError::OpaquePayload)
    );
}

#[test]
fn assembler_gathers_units_up_to_its_limit() {
    let options = AccessUnitAssemblerOptions {
        preallocate_bytes: Some(64),
        max_access_unit_bytes: Some(10),
        copy_policy: CopyPolicy::AlwaysOwned,
    };
    let idle = AccessUnitAssembler::new(Codec::H264, options);
    let mut busy = idle.push_chunk(NalUnitRef::new(&[0, 0, 1, 5]), Some(Timestamp90k(7)));
    assert_eq!(busy.pts_90k(), Some(Timestamp90k(7)));
    assert_eq!(busy.push_chunk(NalUnitRef::new(&[6])), Ok(()));
    assert_eq!(
        busy.push_chunk(NalUnitRef::new(&[8])),
        Err(BitstreamError::AccessUnitTooLarge { actual: 15, limit: 10 })
    );
    assert!(busy.finish().is_err());
    let idle = AccessUnitAssembler::new(Codec::H264, AccessUnitAssemblerOptions::default());
    let busy = idle.push_chunk(NalUnitRef::new(&[5]), None);
    let (unit, idle) = busy.finish().unwrap();
    assert_eq!(unit.into_inner(), vec![0, 0, 0, 1, 5]);
    let _idle = idle.push_chunk(NalUnitRef::new(&[6]), None).discard();
}

#[test]
fn errors_and_defaults_have_their_texts() {
    assert_eq!(BitstreamError::Invalid("x".to_string()).to_string(), "invalid bitstream: x");
    assert_eq!(
        BitstreamError::UnsupportedLayout { codec: Codec::Av1, layout: EncodedLayout::Hvcc }
            .to_string(),
        "unsupported bitstream layout: codec=av1, layout=hvcc"
    );
    assert_eq!(BitstreamError::EmptyAccessUnit.to_string(), "access unit is empty");
    assert_eq!(
        BitstreamError::AccessUnitTooLarge { actual: 15, limit: 10 }.to_string(),
        "access unit exceeds configured byte limit: 15 > 10"
    );
    let options = BitstreamParseOptions::default();
    assert_eq!(options.validation, ValidationLevel::StructuralOnly);
    assert_eq!(options.copy_policy, CopyPolicy::BorrowWhenPossible);
}
