//! Which NAL units an access unit holds, told from their bytes.

use crate::bit_laws::{
    escaped, exponential_code, has_zeros, law_escaped_payload_reads_back,
    law_exponential_codes_read_back, law_unescaping_keeps_the_first_byte, stands,
};
use crate::bits::{bit_at, bits_value, exp_golomb, unescaped};
use crate::bitstream::{
    access_unit_groups, bits_addressable, classification, grouped, h264_first_mb, opens_access_unit,
    NaluClassification,
};
use crate::types::Codec;
use vstd::arithmetic::power2::{lemma_pow2_pos, lemma_pow2_unfold};
use vstd::prelude::*;

verus! {

/// The type in the header of a NAL unit: the low five bits of an H.264 unit, and the six
/// bits behind the first one of an HEVC unit.
pub open spec fn header_type(codec: Codec, unit: Seq<u8>) -> int {
    match codec {
        Codec::H264 => (unit[0] % 32) as int,
        Codec::Hevc => ((unit[0] / 2) % 64) as int,
        Codec::Av1 => -1,
    }
}

/// A coded slice: H.264 types 1 to 5, and HEVC types 0 to 31.
pub open spec fn is_slice(codec: Codec, unit: Seq<u8>) -> bool {
    let t = header_type(codec, unit);
    unit.len() > 0 && match codec {
        Codec::H264 => 1 <= t <= 5,
        Codec::Hevc => 0 <= t <= 31,
        Codec::Av1 => false,
    }
}

/// A unit that stands only before the slices of an access unit: in H.264 supplemental
/// information, parameter sets and the delimiter, and the same in HEVC.
pub open spec fn is_boundary(codec: Codec, unit: Seq<u8>) -> bool {
    let t = header_type(codec, unit);
    unit.len() > 0 && match codec {
        Codec::H264 => 6 <= t <= 9,
        Codec::Hevc => t == 32 || t == 33 || t == 34 || t == 35 || t == 39 || t == 40,
        Codec::Av1 => false,
    }
}

/// Where the payload of a unit starts.
pub open spec fn header_len(codec: Codec) -> int {
    if codec == Codec::Hevc { 2 } else { 1 }
}

/// A slice that is the first of its picture: the first bit of its payload is set. In HEVC
/// this bit is the flag itself, and in H.264 it is the whole code of macroblock zero.
pub open spec fn starts_picture(codec: Codec, unit: Seq<u8>) -> bool {
    is_slice(codec, unit) && unit.len() > header_len(codec) && unit[header_len(codec)] >= 128
}

/// A slice that goes on with a picture: the first bit of its payload is not set and, in
/// H.264, the code of its first macroblock can be read.
pub open spec fn continues_picture(codec: Codec, unit: Seq<u8>) -> bool {
    is_slice(codec, unit) && unit.len() > header_len(codec) && unit[header_len(codec)] < 128 && (
    codec == Codec::H264 ==> h264_first_mb(unit) is Some)
}

/// A unit before which a picture with a slice is complete.
pub open spec fn opens(codec: Codec, unit: Seq<u8>) -> bool {
    is_boundary(codec, unit) || (is_slice(codec, unit) && !continues_picture(codec, unit))
}

pub proof fn lemma_header_bits(byte: u8)
    ensures
        byte & 0x1f == byte % 32,
        (byte >> 1) & 0x3f == (byte / 2) % 64,
        ((byte >> 7) & 1u8 != 0) == (byte >= 128),
{
    assert(byte & 0x1f == byte % 32 && (byte >> 1) & 0x3f == (byte / 2) % 64 && ((byte >> 7) & 1u8
        != 0) == (byte >= 128)) by (bit_vector);
}

proof fn lemma_code_is_positive(data: Seq<u8>, pos: int, zeros: nat)
    requires
        zeros > 0,
    ensures
        exp_golomb(data, pos, zeros) matches Some((value, _)) ==> value > 0,
    decreases 8 * data.len() - pos,
{
    lemma_pow2_unfold(zeros);
    lemma_pow2_pos((zeros - 1) as nat);
    if pos < 8 * data.len() && !bit_at(data, pos) && zeros < 31 {
        lemma_code_is_positive(data, pos + 1, zeros + 1);
    }
}

/// Every NAL unit is taken for what its header and the first bit of its payload say: all
/// slice types are coded slices, IDR and CRA slices among them; parameter sets,
/// delimiters and supplemental information are boundaries; nothing else is either.
pub proof fn law_units_are_told_by_their_bytes(codec: Codec, unit: Seq<u8>)
    requires
        8 * unit.len() <= usize::MAX,
    ensures
        classification(codec, unit) is Vcl <==> is_slice(codec, unit),
        classification(codec, unit) is Boundary <==> is_boundary(codec, unit),
        opens_access_unit(classification(codec, unit)) <==> opens(codec, unit),
        starts_picture(codec, unit) <==> classification(codec, unit) == (
        NaluClassification::Vcl { first_slice: Some(true) }),
        continues_picture(codec, unit) <==> classification(codec, unit) == (
        NaluClassification::Vcl { first_slice: Some(false) }),
        starts_picture(codec, unit) ==> opens(codec, unit),
{
    if unit.len() > 0 {
        lemma_header_bits(unit[0]);
    }
    let from = header_len(codec);
    if unit.len() >= from {
        let payload = unit.skip(from);
        law_unescaping_keeps_the_first_byte(payload);
        let rbsp = unescaped(payload).0;
        assert(bits_addressable(rbsp));
        if unit.len() > from {
            assert(payload[0] == unit[from]);
            lemma_header_bits(rbsp[0]);
            assert(bit_at(rbsp, 0) == (unit[from] >= 128));
            if codec == Codec::H264 {
                if bit_at(rbsp, 0) {
                    vstd::arithmetic::power2::lemma2_to64();
                    assert(bits_value(rbsp, 1, 0) == 0);
                    assert(exp_golomb(rbsp, 0, 0) == Some((0nat, 1int)));
                } else {
                    lemma_code_is_positive(rbsp, 1, 1);
                    assert(exp_golomb(rbsp, 0, 0) == exp_golomb(rbsp, 1, 1));
                }
            }
        } else {
            assert(rbsp.len() == 0);
        }
    }
}

/// The number of the first macroblock of an H.264 slice is read back from a unit that was
/// written as a header byte and, with escapes, a payload that starts with its code.
pub proof fn law_first_macroblocks_read_back(
    header: u8,
    payload: Seq<u8>,
    value: nat,
    zeros: nat,
)
    requires
        8 * payload.len() <= usize::MAX,
        zeros <= 31,
        has_zeros(value, zeros),
        stands(payload, 0, exponential_code(value, zeros)),
    ensures
        h264_first_mb(seq![header] + escaped(payload).0) == Some(value),
        1 <= header % 32 <= 5 ==> classification(Codec::H264, seq![header] + escaped(payload).0) == (
        NaluClassification::Vcl { first_slice: Some(value == 0) }),
{
    let unit = seq![header] + escaped(payload).0;
    assert(unit.skip(1) =~= escaped(payload).0);
    law_escaped_payload_reads_back(payload);
    law_exponential_codes_read_back(payload, 0, value, zeros);
    lemma_header_bits(unit[0]);
}

/// Whether a slice of HEVC is the first of its picture is read back from a unit that was
/// written as two header bytes and, with escapes, a payload that starts with this flag.
pub proof fn law_first_segments_read_back(first: u8, second: u8, payload: Seq<u8>, flag: bool)
    requires
        8 * payload.len() <= usize::MAX,
        stands(payload, 0, seq![flag]),
    ensures
        (first / 2) % 64 <= 31 ==> classification(
            Codec::Hevc,
            seq![first, second] + escaped(payload).0,
        ) == (NaluClassification::Vcl { first_slice: Some(flag) }),
{
    let unit = seq![first, second] + escaped(payload).0;
    assert(unit.skip(2) =~= escaped(payload).0);
    law_escaped_payload_reads_back(payload);
    lemma_header_bits(unit[0]);
    assert(seq![flag][0] == flag);
    assert(bit_at(payload, 0int + 0) == flag);
}

// ---------------------------------------------------------------------------
// Access units

pub open spec fn units_addressable(units: Seq<Seq<u8>>) -> bool {
    forall|i: int| 0 <= i < units.len() ==> 8 * (#[trigger] units[i]).len() <= usize::MAX
}

/// Nothing that opens an access unit stands behind a coded slice of the same one.
pub open spec fn is_whole(codec: Codec, group: Seq<Seq<u8>>) -> bool {
    forall|i: int, j: int|
        0 <= i < j < group.len() ==> !(is_slice(codec, #[trigger] group[i]) && opens(
            codec,
            #[trigger] group[j],
        ))
}

pub open spec fn holds_slice(codec: Codec, group: Seq<Seq<u8>>) -> bool {
    exists|i: int| 0 <= i < group.len() && is_slice(codec, #[trigger] group[i])
}

proof fn lemma_groups(codec: Codec, units: Seq<Seq<u8>>)
    requires
        units_addressable(units),
    ensures
        ({
            let state = grouped(codec, units);
            &&& is_whole(codec, state.current)
            &&& state.seen_vcl <==> holds_slice(codec, state.current)
            &&& state.done.len() > 0 ==> state.current.len() > 0 && opens(codec, state.current[0])
            &&& forall|k: int|
                0 <= k < state.done.len() ==> is_whole(codec, #[trigger] state.done[k])
                    && holds_slice(codec, state.done[k]) && state.done[k].len() > 0
            &&& forall|k: int|
                0 < k < state.done.len() ==> opens(codec, (#[trigger] state.done[k])[0])
        }),
    decreases units.len(),
{
    if units.len() > 0 {
        let rest = units.drop_last();
        assert forall|i: int| 0 <= i < rest.len() implies 8 * (#[trigger] rest[i]).len()
            <= usize::MAX by {
            assert(rest[i] == units[i]);
        }
        lemma_groups(codec, rest);
        let before = grouped(codec, rest);
        let now = grouped(codec, units);
        let unit = units.last();
        assert(unit == units[units.len() - 1]);
        law_units_are_told_by_their_bytes(codec, unit);
        if before.seen_vcl && opens(codec, unit) {
            assert(now.current =~= seq![unit]);
            assert(now.current[0] == unit);
        } else {
            assert(now.current == before.current.push(unit));
            assert forall|i: int, j: int| 0 <= i < j < now.current.len() implies !(is_slice(
                codec,
                #[trigger] now.current[i],
            ) && opens(codec, #[trigger] now.current[j])) by {
                assert(now.current[i] == before.current[i]);
                if is_slice(codec, now.current[i]) && j == before.current.len() {
                    assert(holds_slice(codec, before.current));
                }
            }
            if holds_slice(codec, before.current) {
                let i = choose|i: int|
                    0 <= i < before.current.len() && is_slice(codec, #[trigger] before.current[i]);
                assert(now.current[i] == before.current[i]);
            }
            if is_slice(codec, unit) {
                assert(now.current[before.current.len() as int] == unit);
            }
            if holds_slice(codec, now.current) && !is_slice(codec, unit) {
                let i = choose|i: int|
                    0 <= i < now.current.len() && is_slice(codec, #[trigger] now.current[i]);
                assert(before.current[i] == now.current[i]);
            }
            if now.done.len() > 0 {
                assert(now.current[0] == before.current[0]);
            }
        }
    }
}

/// An access unit holds one picture: of the slices in a group no two start a picture, and
/// behind a coded slice stands neither a boundary nor a slice that does not go on with
/// the picture.
pub proof fn law_access_units_hold_one_picture(codec: Codec, units: Seq<Seq<u8>>, k: int)
    requires
        units_addressable(units),
        0 <= k < access_unit_groups(codec, units).len(),
    ensures
        ({
            let group = access_unit_groups(codec, units)[k];
            &&& forall|i: int, j: int|
                0 <= i < j < group.len() && is_slice(codec, #[trigger] group[i])
                    ==> !starts_picture(codec, #[trigger] group[j]) && !is_boundary(
                    codec,
                    group[j],
                ) && (is_slice(codec, group[j]) ==> continues_picture(codec, group[j]))
        }),
{
    lemma_groups(codec, units);
    let group = access_unit_groups(codec, units)[k];
    assert(is_whole(codec, group));
    assert forall|i: int, j: int|
        0 <= i < j < group.len() && is_slice(codec, #[trigger] group[i]) implies !starts_picture(
        codec,
        #[trigger] group[j],
    ) && !is_boundary(codec, group[j]) && (is_slice(codec, group[j]) ==> continues_picture(
        codec,
        group[j],
    )) by {
        assert(!opens(codec, group[j]));
    }
}

/// A new access unit is begun only where one is complete: the group before it holds a
/// coded slice, and it opens with a boundary or with a slice that does not go on with the
/// picture before.
pub proof fn law_access_units_begin_where_one_ends(codec: Codec, units: Seq<Seq<u8>>, k: int)
    requires
        units_addressable(units),
        0 < k < access_unit_groups(codec, units).len(),
    ensures
        ({
            let groups = access_unit_groups(codec, units);
            &&& groups[k].len() > 0
            &&& is_boundary(codec, groups[k][0]) || (is_slice(codec, groups[k][0])
                && !continues_picture(codec, groups[k][0]))
            &&& exists|i: int|
                0 <= i < groups[k - 1].len() && is_slice(codec, #[trigger] groups[k - 1][i])
        }),
{
    lemma_groups(codec, units);
    let state = grouped(codec, units);
    let groups = access_unit_groups(codec, units);
    assert(groups[k - 1] == state.done[k - 1]);
    if k < state.done.len() {
        assert(groups[k] == state.done[k]);
    }
    assert(holds_slice(codec, groups[k - 1]));
}

} // verus!
