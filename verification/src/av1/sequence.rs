//! The AV1 sequence header.

use super::fields::{field, flag, skip, skip_code, FieldReader};
use crate::bits::bit_at;
use vstd::arithmetic::power2::*;
use vstd::prelude::*;
use vstd::string::*;

verus! {

#[derive(Debug, Clone, Copy, PartialEq, Eq, Structural)]
pub struct ParsedAv1SequenceHeader {
    pub seq_profile: u8,
    pub still_picture: bool,
    pub reduced_still_picture_header: bool,
    pub frame_width_bits_minus_1: u8,
    pub frame_height_bits_minus_1: u8,
    pub max_frame_width_minus_1: u32,
    pub max_frame_height_minus_1: u32,
    pub use_128x128_superblock: bool,
    pub enable_filter_intra: bool,
    pub enable_intra_edge_filter: bool,
}

impl ParsedAv1SequenceHeader {
    pub fn coded_width(&self) -> (r: u32)
        requires
            self.max_frame_width_minus_1 < u32::MAX,
        ensures
            r == self.max_frame_width_minus_1 + 1,
    {
        self.max_frame_width_minus_1 + 1
    }

    pub fn coded_height(&self) -> (r: u32)
        requires
            self.max_frame_height_minus_1 < u32::MAX,
        ensures
            r == self.max_frame_height_minus_1 + 1,
    {
        self.max_frame_height_minus_1 + 1
    }
}

/// The position behind the timing and decoder model information.
pub open spec fn timing_end(data: Seq<u8>, at: Result<int, Seq<char>>) -> Result<int, Seq<char>> {
    let present = skip(data, at, 1, "timing_info_present_flag"@);
    if !flag(data, present) {
        present
    } else {
        let tick = skip(data, present, 32, "num_units_in_display_tick"@);
        let scale = skip(data, tick, 32, "time_scale"@);
        let equal = skip(data, scale, 1, "equal_picture_interval"@);
        let ticks = if flag(data, equal) {
            skip_code(data, equal, "num_ticks_per_picture_minus_1"@)
        } else {
            equal
        };
        let model = skip(data, ticks, 1, "decoder_model_info_present_flag"@);
        if !flag(data, model) {
            model
        } else {
            let delay = skip(data, model, 5, "buffer_delay_length_minus_1"@);
            let units = skip(data, delay, 32, "num_units_in_decoding_tick"@);
            let removal = skip(data, units, 5, "buffer_removal_time_length_minus_1"@);
            skip(data, removal, 5, "frame_presentation_time_length_minus_1"@)
        }
    }
}

/// The position behind the first `count` operating points.
pub open spec fn operating_points_end(
    data: Seq<u8>,
    at: Result<int, Seq<char>>,
    with_delay: bool,
    count: nat,
) -> Result<int, Seq<char>>
    decreases count,
{
    if count == 0 {
        at
    } else {
        let before = operating_points_end(data, at, with_delay, (count - 1) as nat);
        let idc = skip(data, before, 12, "operating_point_idc"@);
        let level = skip(data, idc, 5, "seq_level_idx"@);
        let tier = if field(data, level, 5) > 7 {
            skip(data, level, 1, "seq_tier"@)
        } else {
            level
        };
        if with_delay {
            let present = skip(data, tier, 1, "initial_display_delay_present_for_this_op"@);
            if flag(data, present) {
                skip(data, present, 4, "initial_display_delay_minus_1"@)
            } else {
                present
            }
        } else {
            tier
        }
    }
}

proof fn lemma_operating_points_fault(
    data: Seq<u8>,
    at: Result<int, Seq<char>>,
    with_delay: bool,
    count: nat,
    total: nat,
)
    requires
        count <= total,
        operating_points_end(data, at, with_delay, count) is Err,
    ensures
        operating_points_end(data, at, with_delay, total) == operating_points_end(
            data,
            at,
            with_delay,
            count,
        ),
    decreases total,
{
    if count < total {
        lemma_operating_points_fault(data, at, with_delay, count, (total - 1) as nat);
    }
}

/// The position behind all that precedes the frame size of a full header.
#[verifier::opaque]
pub open spec fn operating_section_end(data: Seq<u8>, at: Result<int, Seq<char>>) -> Result<
    int,
    Seq<char>,
> {
    let timing = timing_end(data, at);
    let delay = skip(data, timing, 1, "initial_display_delay_present_flag"@);
    let count = skip(data, delay, 5, "operating_points_cnt_minus_1"@);
    operating_points_end(data, count, flag(data, delay), field(data, count, 5) + 1)
}

/// The position behind the level, or behind the operating points of a full header.
#[verifier::opaque]
pub open spec fn level_end(data: Seq<u8>, reduced: Result<int, Seq<char>>) -> Result<
    int,
    Seq<char>,
> {
    if reduced is Err {
        reduced
    } else if flag(data, reduced) {
        skip(data, reduced, 5, "seq_level_idx_0"@)
    } else {
        operating_section_end(data, reduced)
    }
}

/// The position behind the frame numbering of a full header.
#[verifier::opaque]
pub open spec fn frame_ids_end(
    data: Seq<u8>,
    height: Result<int, Seq<char>>,
    reduced: bool,
) -> Result<int, Seq<char>> {
    if height is Err || reduced {
        height
    } else {
        let present = skip(data, height, 1, "frame_id_numbers_present_flag"@);
        if flag(data, present) {
            skip(
                data,
                skip(data, present, 4, "delta_frame_id_length_minus_2"@),
                3,
                "additional_frame_id_length_minus_1"@,
            )
        } else {
            present
        }
    }
}

/// The sequence header that a payload holds, or why it holds none.
pub open spec fn sequence_header(data: Seq<u8>) -> Result<ParsedAv1SequenceHeader, Seq<char>> {
    let profile = skip(data, Ok(0), 3, "seq_profile"@);
    let still = skip(data, profile, 1, "still_picture"@);
    let reduced = skip(data, still, 1, "reduced_still_picture_header"@);
    let points = level_end(data, reduced);
    let width_bits = skip(data, points, 4, "frame_width_bits_minus_1"@);
    let height_bits = skip(data, width_bits, 4, "frame_height_bits_minus_1"@);
    let width_count = field(data, width_bits, 4) + 1;
    let height_count = field(data, height_bits, 4) + 1;
    let width = skip(data, height_bits, width_count, "max_frame_width_minus_1"@);
    let height = skip(data, width, height_count, "max_frame_height_minus_1"@);
    let ids = frame_ids_end(data, height, flag(data, reduced));
    let superblock = skip(data, ids, 1, "use_128x128_superblock"@);
    let filter = skip(data, superblock, 1, "enable_filter_intra"@);
    let edge = skip(data, filter, 1, "enable_intra_edge_filter"@);
    match edge {
        Err(e) => Err(e),
        Ok(_) => Ok(
            ParsedAv1SequenceHeader {
                seq_profile: field(data, profile, 3) as u8,
                still_picture: flag(data, still),
                reduced_still_picture_header: flag(data, reduced),
                frame_width_bits_minus_1: field(data, width_bits, 4) as u8,
                frame_height_bits_minus_1: field(data, height_bits, 4) as u8,
                max_frame_width_minus_1: field(data, width, width_count) as u32,
                max_frame_height_minus_1: field(data, height, height_count) as u32,
                use_128x128_superblock: flag(data, superblock),
                enable_filter_intra: flag(data, filter),
                enable_intra_edge_filter: flag(data, edge),
            },
        ),
    }
}

/// Where a cursor stands after a step that ended as `r` says.
pub open spec fn stands_at<T>(
    reader: FieldReader,
    r: Result<T, String>,
    at: Result<int, Seq<char>>,
) -> bool {
    match at {
        Ok(pos) => r is Ok && reader.pos() == pos,
        Err(e) => r matches Err(m) && m@ == e,
    }
}

fn skip_timing(bits: &mut FieldReader<'_>) -> (r: Result<(), String>)
    requires
        old(bits).valid(),
    ensures
        final(bits).valid(),
        final(bits).data() == old(bits).data(),
        stands_at(*final(bits), r, timing_end(old(bits).data(), Ok(old(bits).pos()))),
{
    let present: bool = bits.read_bool("timing_info_present_flag")?;
    if present {
        let _tick: u32 = bits.read_bits_u32(32, "num_units_in_display_tick")?;
        let _scale: u32 = bits.read_bits_u32(32, "time_scale")?;
        let equal: bool = bits.read_bool("equal_picture_interval")?;
        if equal {
            let _ticks: u64 = bits.read_uvlc("num_ticks_per_picture_minus_1")?;
        }
        let model: bool = bits.read_bool("decoder_model_info_present_flag")?;
        if model {
            let _delay: u8 = bits.read_bits_u8(5, "buffer_delay_length_minus_1")?;
            let _units: u32 = bits.read_bits_u32(32, "num_units_in_decoding_tick")?;
            let _removal: u8 = bits.read_bits_u8(5, "buffer_removal_time_length_minus_1")?;
            let _presentation: u8 = bits.read_bits_u8(
                5,
                "frame_presentation_time_length_minus_1",
            )?;
        }
    }
    Ok(())
}

fn skip_operating_point(bits: &mut FieldReader<'_>, with_delay: bool) -> (r: Result<(), String>)
    requires
        old(bits).valid(),
    ensures
        final(bits).valid(),
        final(bits).data() == old(bits).data(),
        stands_at(
            *final(bits),
            r,
            operating_points_end(old(bits).data(), Ok(old(bits).pos()), with_delay, 1),
        ),
{
    proof {
        reveal_with_fuel(operating_points_end, 2);
    }
    let _idc: u16 = bits.read_bits_u16(12, "operating_point_idc")?;
    let level: u8 = bits.read_bits_u8(5, "seq_level_idx")?;
    if level > 7 {
        let _tier: bool = bits.read_bool("seq_tier")?;
    }
    if with_delay {
        let present: bool = bits.read_bool("initial_display_delay_present_for_this_op")?;
        if present {
            let _delay: u8 = bits.read_bits_u8(4, "initial_display_delay_minus_1")?;
        }
    }
    Ok(())
}

proof fn lemma_one_more_point(
    data: Seq<u8>,
    at: Result<int, Seq<char>>,
    with_delay: bool,
    count: nat,
)
    ensures
        operating_points_end(data, at, with_delay, count + 1) == operating_points_end(
            data,
            operating_points_end(data, at, with_delay, count),
            with_delay,
            1,
        ),
{
    reveal_with_fuel(operating_points_end, 2);
}

pub fn skip_av1_operating_points(bits: &mut FieldReader<'_>) -> (r: Result<(), String>)
    requires
        old(bits).valid(),
    ensures
        final(bits).valid(),
        final(bits).data() == old(bits).data(),
        stands_at(*final(bits), r, operating_section_end(old(bits).data(), Ok(old(bits).pos()))),
{
    proof {
        reveal(operating_section_end);
    }
    let ghost data = bits.data();
    let ghost timing = timing_end(data, Ok(bits.pos()));
    let ghost delay_at = skip(data, timing, 1, "initial_display_delay_present_flag"@);
    let ghost count_at = skip(data, delay_at, 5, "operating_points_cnt_minus_1"@);
    let ghost total = field(data, count_at, 5) + 1;
    proof {
        if timing is Err {
            lemma_operating_points_fault(data, count_at, flag(data, delay_at), 0, total);
        }
        if delay_at is Err {
            lemma_operating_points_fault(data, count_at, flag(data, delay_at), 0, total);
        }
        if count_at is Err {
            lemma_operating_points_fault(data, count_at, flag(data, delay_at), 0, total);
        }
    }
    skip_timing(bits)?;
    let with_delay: bool = bits.read_bool("initial_display_delay_present_flag")?;
    let count_minus_1: u8 = bits.read_bits_u8(5, "operating_points_cnt_minus_1")?;
    let count: u32 = count_minus_1 as u32 + 1;
    let mut i: u32 = 0;
    while i < count
        invariant
            i <= count,
            total == count,
            bits.valid(),
            bits.data() == data,
            operating_section_end(data, Ok(old(bits).pos())) == operating_points_end(
                data,
                count_at,
                with_delay,
                total,
            ),
            operating_points_end(data, count_at, with_delay, i as nat) == Ok::<int, Seq<char>>(
                bits.pos(),
            ),
            data == old(bits).data(),
        decreases count - i,
    {
        let ghost here = bits.pos();
        proof {
            lemma_one_more_point(data, count_at, with_delay, i as nat);
            if operating_points_end(data, count_at, with_delay, (i + 1) as nat) is Err {
                lemma_operating_points_fault(
                    data,
                    count_at,
                    with_delay,
                    (i + 1) as nat,
                    total,
                );
            }
        }
        skip_operating_point(bits, with_delay)?;
        i = i + 1;
    }
    Ok(())
}

fn skip_level(bits: &mut FieldReader<'_>, reduced: bool) -> (r: Result<(), String>)
    requires
        old(bits).valid(),
        old(bits).pos() > 0,
        reduced == bit_at(old(bits).data(), old(bits).pos() - 1),
    ensures
        final(bits).valid(),
        final(bits).data() == old(bits).data(),
        stands_at(*final(bits), r, level_end(old(bits).data(), Ok(old(bits).pos()))),
{
    proof {
        reveal(level_end);
    }
    if reduced {
        let _level: u8 = bits.read_bits_u8(5, "seq_level_idx_0")?;
        Ok(())
    } else {
        skip_av1_operating_points(bits)
    }
}

fn skip_frame_ids(bits: &mut FieldReader<'_>, reduced: bool) -> (r: Result<(), String>)
    requires
        old(bits).valid(),
    ensures
        final(bits).valid(),
        final(bits).data() == old(bits).data(),
        stands_at(*final(bits), r, frame_ids_end(old(bits).data(), Ok(old(bits).pos()), reduced)),
{
    proof {
        reveal(frame_ids_end);
    }
    if !reduced {
        let frame_ids: bool = bits.read_bool("frame_id_numbers_present_flag")?;
        if frame_ids {
            let _delta: u8 = bits.read_bits_u8(4, "delta_frame_id_length_minus_2")?;
            let _additional: u8 = bits.read_bits_u8(3, "additional_frame_id_length_minus_1")?;
        }
    }
    Ok(())
}

proof fn lemma_fault_handed_on(data: Seq<u8>, at: Result<int, Seq<char>>, reduced: bool)
    requires
        at is Err,
    ensures
        level_end(data, at) == at,
        frame_ids_end(data, at, reduced) == at,
{
    reveal(level_end);
    reveal(frame_ids_end);
}

/// Reads a sequence header.
#[verifier::rlimit(60)]
pub fn parse_av1_sequence_header_payload(payload: &[u8]) -> (r: Result<
    ParsedAv1SequenceHeader,
    String,
>)
    ensures
        match sequence_header(payload@) {
            Ok(header) => r == Ok::<ParsedAv1SequenceHeader, String>(header),
            Err(e) => r matches Err(m) && m@ == e,
        },
        r matches Ok(header) ==> header.max_frame_width_minus_1 <= 0xffff
            && header.max_frame_height_minus_1 <= 0xffff,
{
    let mut bits = FieldReader::new(payload);
    proof {
        lemma2_to64();
        let data = payload@;
        let profile = skip(data, Ok(0), 3, "seq_profile"@);
        let still = skip(data, profile, 1, "still_picture"@);
        let reduced = skip(data, still, 1, "reduced_still_picture_header"@);
        let points = level_end(data, reduced);
        let width_bits = skip(data, points, 4, "frame_width_bits_minus_1"@);
        let height_bits = skip(data, width_bits, 4, "frame_height_bits_minus_1"@);
        let width_count = field(data, width_bits, 4) + 1;
        let height_count = field(data, height_bits, 4) + 1;
        let width = skip(data, height_bits, width_count, "max_frame_width_minus_1"@);
        let height = skip(data, width, height_count, "max_frame_height_minus_1"@);
        if reduced is Err {
            lemma_fault_handed_on(data, reduced, false);
        }
        if height is Err {
            lemma_fault_handed_on(data, height, flag(data, reduced));
        }
    }
    let seq_profile: u8 = bits.read_bits_u8(3, "seq_profile")?;
    let still_picture: bool = bits.read_bool("still_picture")?;
    let reduced_still_picture_header: bool = bits.read_bool("reduced_still_picture_header")?;
    skip_level(&mut bits, reduced_still_picture_header)?;
    proof {
        crate::bits::lemma_bits_value_bound(payload@, bits.pos(), 4);
        crate::bits::lemma_bits_value_bound(payload@, bits.pos() + 4, 4);
    }
    let frame_width_bits_minus_1: u8 = bits.read_bits_u8(4, "frame_width_bits_minus_1")?;
    let frame_height_bits_minus_1: u8 = bits.read_bits_u8(4, "frame_height_bits_minus_1")?;
    let max_frame_width_minus_1: u32 = bits.read_bits_u32(
        frame_width_bits_minus_1 as usize + 1,
        "max_frame_width_minus_1",
    )?;
    let max_frame_height_minus_1: u32 = bits.read_bits_u32(
        frame_height_bits_minus_1 as usize + 1,
        "max_frame_height_minus_1",
    )?;
    proof {
        if frame_width_bits_minus_1 < 15 {
            lemma_pow2_strictly_increases((frame_width_bits_minus_1 + 1) as nat, 16);
        }
        if frame_height_bits_minus_1 < 15 {
            lemma_pow2_strictly_increases((frame_height_bits_minus_1 + 1) as nat, 16);
        }
    }
    skip_frame_ids(&mut bits, reduced_still_picture_header)?;
    let use_128x128_superblock: bool = bits.read_bool("use_128x128_superblock")?;
    let enable_filter_intra: bool = bits.read_bool("enable_filter_intra")?;
    let enable_intra_edge_filter: bool = bits.read_bool("enable_intra_edge_filter")?;
    Ok(
        ParsedAv1SequenceHeader {
            seq_profile,
            still_picture,
            reduced_still_picture_header,
            frame_width_bits_minus_1,
            frame_height_bits_minus_1,
            max_frame_width_minus_1,
            max_frame_height_minus_1,
            use_128x128_superblock,
            enable_filter_intra,
            enable_intra_edge_filter,
        },
    )
}

} // verus!
