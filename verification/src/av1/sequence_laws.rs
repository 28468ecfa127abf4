//! What reading a sequence header gives back of what was written.

use super::fields::{field, flag, skip, variable_code};
use super::sequence::{
    frame_ids_end, level_end, operating_points_end, operating_section_end, sequence_header,
    timing_end,
};
use crate::bit_laws::{
    binary, exponential_code, has_zeros, law_fields_read_back, lemma_binary_len, lemma_leading_one,
    lemma_stands_parts, stands,
};
use crate::bits::bit_at;
use vstd::arithmetic::power2::{lemma_pow2_unfold, pow2};
use vstd::prelude::*;

verus! {

// ---------------------------------------------------------------------------
// Writing

pub struct WrittenModel {
    pub buffer_delay_length: nat,
    pub decoding_tick: nat,
    pub removal_time_length: nat,
    pub presentation_time_length: nat,
}

/// Timing information; the ticks per picture come with the number of zeros of their code.
pub struct WrittenTiming {
    pub display_tick: nat,
    pub time_scale: nat,
    pub ticks_per_picture: Option<(nat, nat)>,
    pub model: Option<WrittenModel>,
}

pub struct WrittenPoint {
    pub idc: nat,
    pub level: nat,
    pub tier: bool,
    pub delay: Option<nat>,
}

/// The fields of a sequence header up to the intra edge filter. A header in the reduced
/// form has a level of its own in place of timing information and operating points, and
/// no frame identifiers.
pub struct WrittenHeader {
    pub profile: nat,
    pub still_picture: bool,
    pub reduced: bool,
    pub level: nat,
    pub timing: Option<WrittenTiming>,
    pub delays: bool,
    pub points: Seq<WrittenPoint>,
    pub width_bits_minus_1: nat,
    pub height_bits_minus_1: nat,
    pub width_minus_1: nat,
    pub height_minus_1: nat,
    pub frame_ids: Option<(nat, nat)>,
    pub superblock_128: bool,
    pub filter_intra: bool,
    pub intra_edge_filter: bool,
}

pub open spec fn model_bits(model: Option<WrittenModel>) -> Seq<bool> {
    match model {
        None => seq![false],
        Some(m) => seq![true] + binary(m.buffer_delay_length, 5) + binary(m.decoding_tick, 32)
            + binary(m.removal_time_length, 5) + binary(m.presentation_time_length, 5),
    }
}

pub open spec fn ticks_bits(ticks: Option<(nat, nat)>) -> Seq<bool> {
    match ticks {
        None => seq![false],
        Some((value, zeros)) => seq![true] + exponential_code(value, zeros),
    }
}

/// Absent timing information is one bit that is not set.
pub open spec fn timing_bits(timing: Option<WrittenTiming>) -> Seq<bool> {
    match timing {
        None => seq![false],
        Some(t) => seq![true] + binary(t.display_tick, 32) + binary(t.time_scale, 32) + ticks_bits(
            t.ticks_per_picture,
        ) + model_bits(t.model),
    }
}

pub open spec fn delay_bits(delay: Option<nat>) -> Seq<bool> {
    match delay {
        None => seq![false],
        Some(d) => seq![true] + binary(d, 4),
    }
}

/// An operating point: a tier is there for levels above 7, and a delay where the header
/// has delays.
pub open spec fn point_bits(point: WrittenPoint, delays: bool) -> Seq<bool> {
    binary(point.idc, 12) + binary(point.level, 5) + (if point.level > 7 {
        seq![point.tier]
    } else {
        Seq::empty()
    }) + (if delays { delay_bits(point.delay) } else { Seq::empty() })
}

pub open spec fn points_bits(points: Seq<WrittenPoint>, delays: bool) -> Seq<bool>
    decreases points.len(),
{
    if points.len() == 0 {
        Seq::empty()
    } else {
        points_bits(points.drop_last(), delays) + point_bits(points.last(), delays)
    }
}

pub open spec fn level_bits(h: WrittenHeader) -> Seq<bool> {
    if h.reduced {
        binary(h.level, 5)
    } else {
        timing_bits(h.timing) + seq![h.delays] + binary((h.points.len() - 1) as nat, 5)
            + points_bits(h.points, h.delays)
    }
}

pub open spec fn frame_ids_bits(h: WrittenHeader) -> Seq<bool> {
    if h.reduced {
        Seq::empty()
    } else {
        match h.frame_ids {
            None => seq![false],
            Some((delta, additional)) => seq![true] + binary(delta, 4) + binary(additional, 3),
        }
    }
}

/// A sequence header, field by field in the order of the AV1 syntax. Operating points have
/// no decoder model parameters.
pub open spec fn header_bits(h: WrittenHeader) -> Seq<bool> {
    binary(h.profile, 3) + seq![h.still_picture] + seq![h.reduced] + level_bits(h) + binary(
        h.width_bits_minus_1,
        4,
    ) + binary(h.height_bits_minus_1, 4) + binary(h.width_minus_1, h.width_bits_minus_1 + 1)
        + binary(h.height_minus_1, h.height_bits_minus_1 + 1) + frame_ids_bits(h) + seq![
        h.superblock_128,
    ] + seq![h.filter_intra] + seq![h.intra_edge_filter]
}

pub open spec fn timing_fits(timing: Option<WrittenTiming>) -> bool {
    timing matches Some(t) ==> {
        &&& t.display_tick < 0x1_0000_0000
        &&& t.time_scale < 0x1_0000_0000
        &&& t.ticks_per_picture matches Some(ticks) ==> ticks.1 <= 62 && has_zeros(
            ticks.0,
            ticks.1,
        )
        &&& t.model matches Some(m) ==> m.buffer_delay_length < 32 && m.decoding_tick
            < 0x1_0000_0000 && m.removal_time_length < 32 && m.presentation_time_length < 32
    }
}

pub open spec fn point_fits(point: WrittenPoint) -> bool {
    &&& point.idc < 4096
    &&& point.level < 32
    &&& point.delay matches Some(d) ==> d < 16
}

/// Every field fits the bits that it is written in.
pub open spec fn header_fits(h: WrittenHeader) -> bool {
    &&& h.profile < 8
    &&& h.level < 32
    &&& timing_fits(h.timing)
    &&& 1 <= h.points.len() <= 32
    &&& forall|i: int| 0 <= i < h.points.len() ==> point_fits(#[trigger] h.points[i])
    &&& h.width_bits_minus_1 < 16
    &&& h.height_bits_minus_1 < 16
    &&& h.width_minus_1 < pow2(h.width_bits_minus_1 + 1)
    &&& h.height_minus_1 < pow2(h.height_bits_minus_1 + 1)
    &&& h.frame_ids matches Some(ids) ==> ids.0 < 16 && ids.1 < 8
}

// ---------------------------------------------------------------------------
// Reading

proof fn lemma_field(data: Seq<u8>, pos: int, value: nat, count: nat, name: Seq<char>)
    requires
        8 * data.len() <= usize::MAX,
        value < pow2(count),
        stands(data, pos, binary(value, count)),
    ensures
        skip(data, Ok(pos), count, name) == Ok::<int, Seq<char>>(pos + count),
        field(data, Ok(pos + count), count) == value,
        binary(value, count).len() == count,
{
    lemma_binary_len(value, count);
    law_fields_read_back(data, pos, value, count);
}

proof fn lemma_flag(data: Seq<u8>, pos: int, bit: bool, name: Seq<char>)
    requires
        8 * data.len() <= usize::MAX,
        stands(data, pos, seq![bit]),
    ensures
        skip(data, Ok(pos), 1, name) == Ok::<int, Seq<char>>(pos + 1),
        flag(data, Ok(pos + 1)) == bit,
{
    assert(seq![bit][0] == bit);
    assert(bit_at(data, pos + 0) == bit);
}

proof fn lemma_code_zeros(data: Seq<u8>, pos: int, read: nat, zeros: nat, name: Seq<char>)
    requires
        8 * data.len() <= usize::MAX,
        read <= zeros,
        0 <= pos,
        pos + zeros - read < 8 * data.len(),
        forall|k: int| 0 <= k < zeros - read ==> !bit_at(data, #[trigger] (pos + k)),
    ensures
        variable_code(data, Ok(pos), read, name) == variable_code(
            data,
            Ok(pos + zeros - read),
            zeros,
            name,
        ),
    decreases zeros - read,
{
    if read < zeros {
        assert(!bit_at(data, pos + 0));
        assert forall|k: int| 0 <= k < zeros - read - 1 implies !bit_at(
            data,
            #[trigger] (pos + 1 + k),
        ) by {
            assert(!bit_at(data, pos + (k + 1)));
        }
        lemma_code_zeros(data, pos + 1, read + 1, zeros, name);
    }
}

/// Every number is read back from its variable length code, and reading goes on right
/// behind the code.
pub proof fn law_variable_codes_read_back(
    data: Seq<u8>,
    pos: int,
    value: nat,
    zeros: nat,
    name: Seq<char>,
)
    requires
        8 * data.len() <= usize::MAX,
        zeros <= 62,
        has_zeros(value, zeros),
        stands(data, pos, exponential_code(value, zeros)),
    ensures
        variable_code(data, Ok(pos), 0, name) == Ok::<(nat, int), Seq<char>>(
            (value, pos + 2 * zeros + 1),
        ),
        exponential_code(value, zeros).len() == 2 * zeros + 1,
{
    let lead = Seq::new(zeros, |i: int| false);
    lemma_binary_len(value + 1, zeros + 1);
    lemma_stands_parts(data, pos, lead, binary(value + 1, zeros + 1));
    assert forall|k: int| 0 <= k < zeros implies !bit_at(data, #[trigger] (pos + k)) by {
        assert(!lead[k]);
    }
    lemma_code_zeros(data, pos, 0, zeros, name);
    let rest = (value + 1 - pow2(zeros)) as nat;
    lemma_leading_one(value + 1, zeros);
    lemma_pow2_unfold(zeros + 1);
    lemma_binary_len(rest, zeros);
    lemma_stands_parts(data, pos + zeros, seq![true], binary(rest, zeros));
    assert(seq![true][0]);
    assert(bit_at(data, pos + zeros + 0));
    law_fields_read_back(data, pos + zeros + 1, rest, zeros);
}

/// The timing part takes exactly the bits that it was written in: a single one where there
/// is no timing information.
pub proof fn law_timing_takes_its_bits(data: Seq<u8>, pos: int, timing: Option<WrittenTiming>)
    requires
        8 * data.len() <= usize::MAX,
        timing_fits(timing),
        stands(data, pos, timing_bits(timing)),
    ensures
        timing_end(data, Ok(pos)) == Ok::<int, Seq<char>>(pos + timing_bits(timing).len()),
        timing is None ==> timing_end(data, Ok(pos)) == Ok::<int, Seq<char>>(pos + 1),
{
    vstd::arithmetic::power2::lemma2_to64();
    match timing {
        None => {
            lemma_flag(data, pos, false, "timing_info_present_flag"@);
        },
        Some(t) => {
            let a = seq![true];
            let b = binary(t.display_tick, 32);
            let c = binary(t.time_scale, 32);
            let d = ticks_bits(t.ticks_per_picture);
            let e = model_bits(t.model);
            lemma_stands_parts(data, pos, a + b + c + d, e);
            lemma_stands_parts(data, pos, a + b + c, d);
            lemma_stands_parts(data, pos, a + b, c);
            lemma_stands_parts(data, pos, a, b);
            lemma_flag(data, pos, true, "timing_info_present_flag"@);
            lemma_field(data, pos + 1, t.display_tick, 32, "num_units_in_display_tick"@);
            lemma_field(data, pos + 33, t.time_scale, 32, "time_scale"@);
            let at = pos + 65;
            match t.ticks_per_picture {
                None => {
                    lemma_flag(data, at, false, "equal_picture_interval"@);
                },
                Some(ticks) => {
                    lemma_stands_parts(data, at, seq![true], exponential_code(ticks.0, ticks.1));
                    lemma_flag(data, at, true, "equal_picture_interval"@);
                    law_variable_codes_read_back(
                        data,
                        at + 1,
                        ticks.0,
                        ticks.1,
                        "num_ticks_per_picture_minus_1"@,
                    );
                },
            }
            let next = at + d.len();
            match t.model {
                None => {
                    lemma_flag(data, next, false, "decoder_model_info_present_flag"@);
                },
                Some(m) => {
                    let f = binary(m.buffer_delay_length, 5);
                    let g = binary(m.decoding_tick, 32);
                    let h = binary(m.removal_time_length, 5);
                    let i = binary(m.presentation_time_length, 5);
                    lemma_stands_parts(data, next, a + f + g + h, i);
                    lemma_stands_parts(data, next, a + f + g, h);
                    lemma_stands_parts(data, next, a + f, g);
                    lemma_stands_parts(data, next, a, f);
                    lemma_flag(data, next, true, "decoder_model_info_present_flag"@);
                    lemma_field(
                        data,
                        next + 1,
                        m.buffer_delay_length,
                        5,
                        "buffer_delay_length_minus_1"@,
                    );
                    lemma_field(
                        data,
                        next + 6,
                        m.decoding_tick,
                        32,
                        "num_units_in_decoding_tick"@,
                    );
                    lemma_field(
                        data,
                        next + 38,
                        m.removal_time_length,
                        5,
                        "buffer_removal_time_length_minus_1"@,
                    );
                    lemma_field(
                        data,
                        next + 43,
                        m.presentation_time_length,
                        5,
                        "frame_presentation_time_length_minus_1"@,
                    );
                },
            }
        },
    }
}

proof fn lemma_points(data: Seq<u8>, pos: int, points: Seq<WrittenPoint>, delays: bool)
    requires
        8 * data.len() <= usize::MAX,
        forall|i: int| 0 <= i < points.len() ==> point_fits(#[trigger] points[i]),
        stands(data, pos, points_bits(points, delays)),
    ensures
        operating_points_end(data, Ok(pos), delays, points.len()) == Ok::<int, Seq<char>>(
            pos + points_bits(points, delays).len(),
        ),
    decreases points.len(),
{
    if points.len() > 0 {
        let rest = points.drop_last();
        let point = points.last();
        assert(point == points[points.len() - 1]);
        assert forall|i: int| 0 <= i < rest.len() implies point_fits(#[trigger] rest[i]) by {
            assert(rest[i] == points[i]);
        }
        lemma_stands_parts(data, pos, points_bits(rest, delays), point_bits(point, delays));
        lemma_points(data, pos, rest, delays);
        vstd::arithmetic::power2::lemma2_to64();
        let at = pos + points_bits(rest, delays).len();
        let a = binary(point.idc, 12);
        let b = binary(point.level, 5);
        let c = if point.level > 7 {
            seq![point.tier]
        } else {
            Seq::empty()
        };
        let d = if delays {
            delay_bits(point.delay)
        } else {
            Seq::empty()
        };
        lemma_stands_parts(data, at, a + b + c, d);
        lemma_stands_parts(data, at, a + b, c);
        lemma_stands_parts(data, at, a, b);
        lemma_field(data, at, point.idc, 12, "operating_point_idc"@);
        lemma_field(data, at + 12, point.level, 5, "seq_level_idx"@);
        if point.level > 7 {
            lemma_flag(data, at + 17, point.tier, "seq_tier"@);
        }
        let next = at + 17 + c.len();
        if delays {
            match point.delay {
                None => {
                    lemma_flag(data, next, false, "initial_display_delay_present_for_this_op"@);
                },
                Some(delay) => {
                    lemma_stands_parts(data, next, seq![true], binary(delay, 4));
                    lemma_flag(data, next, true, "initial_display_delay_present_for_this_op"@);
                    lemma_field(data, next + 1, delay, 4, "initial_display_delay_minus_1"@);
                },
            }
        }
    }
}

proof fn lemma_level(data: Seq<u8>, pos: int, h: WrittenHeader)
    requires
        8 * data.len() <= usize::MAX,
        header_fits(h),
        flag(data, Ok(pos)) == h.reduced,
        stands(data, pos, level_bits(h)),
    ensures
        level_end(data, Ok(pos)) == Ok::<int, Seq<char>>(pos + level_bits(h).len()),
{
    vstd::arithmetic::power2::lemma2_to64();
    reveal(operating_section_end);
    reveal(level_end);
    if h.reduced {
        lemma_field(data, pos, h.level, 5, "seq_level_idx_0"@);
    } else {
        let a = timing_bits(h.timing);
        let b = seq![h.delays];
        let c = binary((h.points.len() - 1) as nat, 5);
        let d = points_bits(h.points, h.delays);
        lemma_stands_parts(data, pos, a + b + c, d);
        lemma_stands_parts(data, pos, a + b, c);
        lemma_stands_parts(data, pos, a, b);
        law_timing_takes_its_bits(data, pos, h.timing);
        let at = pos + a.len();
        lemma_flag(data, at, h.delays, "initial_display_delay_present_flag"@);
        lemma_field(
            data,
            at + 1,
            (h.points.len() - 1) as nat,
            5,
            "operating_points_cnt_minus_1"@,
        );
        lemma_points(data, at + 6, h.points, h.delays);
    }
}

proof fn lemma_frame_ids(data: Seq<u8>, pos: int, h: WrittenHeader)
    requires
        8 * data.len() <= usize::MAX,
        header_fits(h),
        stands(data, pos, frame_ids_bits(h)),
    ensures
        frame_ids_end(data, Ok(pos), h.reduced) == Ok::<int, Seq<char>>(
            pos + frame_ids_bits(h).len(),
        ),
{
    vstd::arithmetic::power2::lemma2_to64();
    reveal(frame_ids_end);
    if !h.reduced {
        match h.frame_ids {
            None => {
                lemma_flag(data, pos, false, "frame_id_numbers_present_flag"@);
            },
            Some(ids) => {
                let a = seq![true];
                let b = binary(ids.0, 4);
                lemma_stands_parts(data, pos, a + b, binary(ids.1, 3));
                lemma_stands_parts(data, pos, a, b);
                lemma_flag(data, pos, true, "frame_id_numbers_present_flag"@);
                lemma_field(data, pos + 1, ids.0, 4, "delta_frame_id_length_minus_2"@);
                lemma_field(data, pos + 5, ids.1, 3, "additional_frame_id_length_minus_1"@);
            },
        }
    }
}

/// Every sequence header that was written field by field is read back as it was written,
/// whatever follows it in the data.
#[verifier::spinoff_prover]
pub proof fn law_sequence_headers_read_back(data: Seq<u8>, h: WrittenHeader)
    requires
        8 * data.len() <= usize::MAX,
        header_fits(h),
        stands(data, 0, header_bits(h)),
    ensures
        sequence_header(data) matches Ok(parsed) && parsed.seq_profile == h.profile
            && parsed.still_picture == h.still_picture && parsed.reduced_still_picture_header
            == h.reduced && parsed.frame_width_bits_minus_1 == h.width_bits_minus_1
            && parsed.frame_height_bits_minus_1 == h.height_bits_minus_1
            && parsed.max_frame_width_minus_1 == h.width_minus_1 && parsed.max_frame_height_minus_1
            == h.height_minus_1 && parsed.use_128x128_superblock == h.superblock_128
            && parsed.enable_filter_intra == h.filter_intra && parsed.enable_intra_edge_filter
            == h.intra_edge_filter,
{
    vstd::arithmetic::power2::lemma2_to64();
    let a = binary(h.profile, 3);
    let b = seq![h.still_picture];
    let c = seq![h.reduced];
    let d = level_bits(h);
    let e = binary(h.width_bits_minus_1, 4);
    let f = binary(h.height_bits_minus_1, 4);
    let g = binary(h.width_minus_1, h.width_bits_minus_1 + 1);
    let i = binary(h.height_minus_1, h.height_bits_minus_1 + 1);
    let j = frame_ids_bits(h);
    let k = seq![h.superblock_128];
    let l = seq![h.filter_intra];
    let m = seq![h.intra_edge_filter];
    lemma_stands_parts(data, 0, a + b + c + d + e + f + g + i + j + k + l, m);
    lemma_stands_parts(data, 0, a + b + c + d + e + f + g + i + j + k, l);
    lemma_stands_parts(data, 0, a + b + c + d + e + f + g + i + j, k);
    lemma_stands_parts(data, 0, a + b + c + d + e + f + g + i, j);
    lemma_stands_parts(data, 0, a + b + c + d + e + f + g, i);
    lemma_stands_parts(data, 0, a + b + c + d + e + f, g);
    lemma_stands_parts(data, 0, a + b + c + d + e, f);
    lemma_stands_parts(data, 0, a + b + c + d, e);
    lemma_stands_parts(data, 0, a + b + c, d);
    lemma_stands_parts(data, 0, a + b, c);
    lemma_stands_parts(data, 0, a, b);
    lemma_field(data, 0, h.profile, 3, "seq_profile"@);
    lemma_flag(data, 3, h.still_picture, "still_picture"@);
    lemma_flag(data, 4, h.reduced, "reduced_still_picture_header"@);
    lemma_level(data, 5, h);
    let p: int = 5 + d.len() as int;
    lemma_field(data, p, h.width_bits_minus_1, 4, "frame_width_bits_minus_1"@);
    lemma_field(data, p + 4, h.height_bits_minus_1, 4, "frame_height_bits_minus_1"@);
    let w = h.width_bits_minus_1 + 1;
    let v = h.height_bits_minus_1 + 1;
    lemma_field(data, p + 8, h.width_minus_1, w, "max_frame_width_minus_1"@);
    lemma_field(data, p + 8 + w, h.height_minus_1, v, "max_frame_height_minus_1"@);
    let q = p + 8 + w + v;
    lemma_frame_ids(data, q, h);
    let r = q + j.len();
    lemma_flag(data, r, h.superblock_128, "use_128x128_superblock"@);
    lemma_flag(data, r + 1, h.filter_intra, "enable_filter_intra"@);
    lemma_flag(data, r + 2, h.intra_edge_filter, "enable_intra_edge_filter"@);
    if w < 16 {
        vstd::arithmetic::power2::lemma_pow2_strictly_increases(w, 16);
    }
    if v < 16 {
        vstd::arithmetic::power2::lemma_pow2_strictly_increases(v, 16);
    }
}

} // verus!
