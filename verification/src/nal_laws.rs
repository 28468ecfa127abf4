//! NAL units in byte strings, told byte by byte.

use crate::access_unit_laws::header_type;
use crate::bitstream::{
    all_fit, annexb_bytes, annexb_units, be_bytes, be_value, byte_views, first_too_long,
    law_length_prefixed_round_trip, law_split_reads_back_appended_units, lemma_next_start_found,
    length_prefixed_bytes, next_start, payload_units, plain_units, sample_units, sets_among,
    start_code_len, stripped, units_from, units_of_type, BitstreamError, NalLengthSize, ParameterSets,
};
use crate::types::{Codec, EncodedLayout};
use vstd::prelude::*;

verus! {

// ---------------------------------------------------------------------------
// Start codes

/// A start code of three bytes, or of four with one zero more.
pub open spec fn code_bytes(long: bool) -> Seq<u8> {
    if long { seq![0u8, 0u8, 0u8, 1u8] } else { seq![0u8, 0u8, 1u8] }
}

/// Units, each behind a start code that is long or not.
pub open spec fn coded_bytes(parts: Seq<(bool, Seq<u8>)>) -> Seq<u8>
    decreases parts.len(),
{
    if parts.len() == 0 {
        Seq::empty()
    } else {
        code_bytes(parts[0].0) + parts[0].1 + coded_bytes(parts.skip(1))
    }
}

/// A unit that can be told from what stands around it: it is not empty, does not end with a
/// zero, and nowhere in it do two zeros and a one follow each other.
pub open spec fn is_separable(unit: Seq<u8>) -> bool {
    unit.len() > 0 && unit.last() != 0 && forall|i: int|
        0 <= i && i + 2 < unit.len() ==> !(#[trigger] unit[i] == 0 && unit[i + 1] == 0 && unit[i
            + 2] == 1)
}

proof fn lemma_no_code_inside(b: Seq<u8>, from: int, unit: Seq<u8>)
    requires
        0 <= from,
        from + unit.len() <= b.len(),
        b.subrange(from, from + unit.len()) == unit,
        is_separable(unit),
    ensures
        forall|j: int| from <= j < from + unit.len() ==> start_code_len(b, j) == 0,
{
    let end = from + unit.len();
    let part = b.subrange(from, end);
    assert forall|j: int| from <= j < end implies start_code_len(b, j) == 0 by {
        if start_code_len(b, j) > 0 {
            let i = j - from;
            assert(part[i] == b[j]);
            assert(part[unit.len() - 1] == b[end - 1]);
            if j + 1 < end {
                assert(part[i + 1] == b[j + 1]);
                if j + 2 < end {
                    assert(part[i + 2] == b[j + 2]);
                    assert(!(unit[i] == 0 && unit[i + 1] == 0 && unit[i + 2] == 1));
                    assert(start_code_len(b, j) == 4);
                    if j + 3 < end {
                        assert(part[i + 3] == b[j + 3]);
                        let h = i + 1;
                        assert(unit[h] == 0 && unit[h + 1] == 0 && unit[h + 2] == 1);
                    }
                }
            }
        }
    }
}

#[verifier::spinoff_prover]
proof fn lemma_coded(b: Seq<u8>, before: Seq<u8>, parts: Seq<(bool, Seq<u8>)>)
    requires
        b == before + coded_bytes(parts),
        forall|k: int| 0 <= k < parts.len() ==> is_separable((#[trigger] parts[k]).1),
    ensures
        units_from(b, before.len() as int) == parts.map_values(|part: (bool, Seq<u8>)| part.1),
    decreases parts.len(),
{
    let p = before.len() as int;
    let all = parts.map_values(|part: (bool, Seq<u8>)| part.1);
    if parts.len() == 0 {
        assert(b =~= before);
        lemma_next_start_found(b, p, p);
        assert(units_from(b, p) =~= all);
    } else {
        let code = code_bytes(parts[0].0);
        let unit = parts[0].1;
        let rest = parts.skip(1);
        let after = coded_bytes(rest);
        let next = before + code + unit;
        assert(is_separable(parts[0].1));
        assert(b =~= next + after);
        assert forall|k: int| 0 <= k < rest.len() implies is_separable((#[trigger] rest[k]).1) by {
            assert(rest[k] == parts[k + 1]);
        }
        lemma_coded(b, next, rest);
        assert(b[p] == code[0] && b[p + 1] == code[1] && b[p + 2] == code[2]);
        if parts[0].0 {
            assert(b[p + 3] == code[3]);
        }
        assert(start_code_len(b, p) == code.len());
        lemma_next_start_found(b, p, p);
        let from = p + code.len();
        let end = from + unit.len();
        assert(b.subrange(from, end) =~= unit);
        lemma_no_code_inside(b, from, unit);
        if rest.len() > 0 {
            let second = code_bytes(rest[0].0);
            assert(after =~= second + (rest[0].1 + coded_bytes(rest.skip(1))));
            assert(b[end] == second[0] && b[end + 1] == second[1] && b[end + 2] == second[2]);
            if rest[0].0 {
                assert(b[end + 3] == second[3]);
            }
            assert(start_code_len(b, end) == second.len());
        } else {
            assert(end == b.len());
        }
        lemma_next_start_found(b, from, end);
        lemma_next_start_found(b, end, end);
        let others = rest.map_values(|part: (bool, Seq<u8>)| part.1);
        if rest.len() > 0 {
            let second = start_code_len(b, end);
            assert(units_from(b, end) =~= units_from(b, end + second));
            assert(units_from(b, from) =~= seq![unit] + units_from(b, end + second));
        } else {
            assert(units_from(b, from) =~= seq![unit]);
            assert(others =~= Seq::<Seq<u8>>::empty());
        }
        assert(units_from(b, p) =~= units_from(b, from));
        assert(all =~= seq![unit] + others);
    }
}

/// Units are found behind start codes of three and of four bytes alike, in any mixture.
pub proof fn law_units_are_found_behind_start_codes(parts: Seq<(bool, Seq<u8>)>)
    requires
        parts.len() > 0,
        forall|k: int| 0 <= k < parts.len() ==> is_separable((#[trigger] parts[k]).1),
    ensures
        annexb_units(coded_bytes(parts)) == Some(
            parts.map_values(|part: (bool, Seq<u8>)| part.1),
        ),
{
    let b = coded_bytes(parts);
    assert(Seq::<u8>::empty() + b =~= b);
    lemma_coded(b, Seq::empty(), parts);
    let code = code_bytes(parts[0].0);
    assert(b[0] == code[0] && b[1] == code[1] && b[2] == code[2]);
    if parts[0].0 {
        assert(b[3] == code[3]);
    }
    assert(start_code_len(b, 0) == code.len());
    assert(next_start(b, 0) == 0);
    assert(units_from(b, 0) =~= units_from(b, code.len() as int));
}

/// There are units if and only if two zeros and a one follow each other somewhere.
pub proof fn law_units_need_a_start_code(b: Seq<u8>)
    ensures
        annexb_units(b) is Some <==> exists|i: int|
            0 <= i && i + 2 < b.len() && #[trigger] b[i] == 0 && b[i + 1] == 0 && b[i + 2] == 1,
{
    lemma_start_found(b, 0);
    if exists|i: int|
        0 <= i && i + 2 < b.len() && #[trigger] b[i] == 0 && b[i + 1] == 0 && b[i + 2] == 1 {
        let i = choose|i: int|
            0 <= i && i + 2 < b.len() && #[trigger] b[i] == 0 && b[i + 1] == 0 && b[i + 2] == 1;
        assert(start_code_len(b, i) > 0);
    }
    if annexb_units(b) is Some {
        let i = next_start(b, 0);
        if start_code_len(b, i) == 4 {
            let j = i + 1;
            assert(b[j] == 0 && b[j + 1] == 0 && b[j + 2] == 1);
        } else {
            assert(b[i] == 0 && b[i + 1] == 0 && b[i + 2] == 1);
        }
    }
}

proof fn lemma_start_found(b: Seq<u8>, i: int)
    requires
        0 <= i <= b.len(),
    ensures
        i <= next_start(b, i) <= b.len(),
        next_start(b, i) < b.len() ==> start_code_len(b, next_start(b, i)) > 0,
        forall|j: int| i <= j < next_start(b, i) ==> start_code_len(b, j) == 0,
    decreases b.len() - i,
{
    if i < b.len() && start_code_len(b, i) == 0 {
        lemma_start_found(b, i + 1);
    }
}

/// A start code in front of a unit is taken off, whether it is long or not, and a unit
/// without one is left as it is.
pub proof fn law_start_codes_are_taken_off(long: bool, unit: Seq<u8>)
    ensures
        stripped(code_bytes(long) + unit) == unit,
        is_separable(unit) && !(unit.len() > 3 && unit[0] == 0 && unit[1] == 0 && unit[2] == 0
            && unit[3] == 1) ==> stripped(unit) == unit,
{
    let b = code_bytes(long) + unit;
    let code = code_bytes(long);
    assert(b[0] == code[0] && b[1] == code[1] && b[2] == code[2]);
    if long {
        assert(b[3] == code[3]);
    }
    assert(b.skip(code.len() as int) =~= unit);
    if is_separable(unit) && unit.len() > 2 {
        assert(!(unit[0] == 0 && unit[1] == 0 && unit[2] == 1));
    }
    assert(unit.skip(0) =~= unit);
}

/// Every unit that is written into an Annex-B byte string stands there behind two or three
/// zeros and a one, of which the writer always takes the longer form.
pub proof fn law_units_are_written_behind_long_codes(units: Seq<Seq<u8>>, unit: Seq<u8>)
    requires
        is_separable(unit),
        !(unit.len() > 3 && unit[0] == 0 && unit[1] == 0 && unit[2] == 0 && unit[3] == 1),
    ensures
        annexb_bytes(units.push(unit)) == annexb_bytes(units) + seq![0u8, 0u8, 0u8, 1u8] + unit,
{
    law_start_codes_are_taken_off(true, unit);
    assert(units.push(unit).drop_last() =~= units);
}

// ---------------------------------------------------------------------------
// Lengths

/// Lengths are written with the most significant byte first, in as many bytes as the size
/// says.
pub proof fn law_lengths_are_big_endian(value: nat, size: NalLengthSize)
    requires
        value <= size.limit(),
    ensures
        match size {
            NalLengthSize::One => value < 256 && be_bytes(value, size.spec_bytes()) == seq![
                value as u8,
            ],
            NalLengthSize::Two => value < 65_536 && be_bytes(value, size.spec_bytes()) == seq![
                (value / 256) as u8,
                (value % 256) as u8,
            ],
            NalLengthSize::Four => value < 4_294_967_296 && be_bytes(value, size.spec_bytes())
                == seq![
                (value / 16_777_216) as u8,
                ((value / 65_536) % 256) as u8,
                ((value / 256) % 256) as u8,
                (value % 256) as u8,
            ],
        },
{
    reveal_with_fuel(be_bytes, 5);
    let b = be_bytes(value, size.spec_bytes());
    match size {
        NalLengthSize::One => {
            assert(b =~= seq![value as u8]);
        },
        NalLengthSize::Two => {
            assert(b =~= seq![(value / 256) as u8, (value % 256) as u8]);
        },
        NalLengthSize::Four => {
            assert(value / 256 / 256 == value / 65_536);
            assert(value / 256 / 256 / 256 == value / 16_777_216);
            assert(b =~= seq![
                (value / 16_777_216) as u8,
                ((value / 65_536) % 256) as u8,
                ((value / 256) % 256) as u8,
                (value % 256) as u8,
            ]);
        },
    }
}

/// Lengths are read with the most significant byte first.
pub proof fn law_lengths_are_read_big_endian(b: Seq<u8>)
    requires
        1 <= b.len() <= 4,
    ensures
        b.len() == 1 ==> be_value(b) == b[0],
        b.len() == 2 ==> be_value(b) == 256 * b[0] + b[1],
        b.len() == 3 ==> be_value(b) == 65_536 * b[0] + 256 * b[1] + b[2],
        b.len() == 4 ==> be_value(b) == 16_777_216 * b[0] + 65_536 * b[1] + 256 * b[2] + b[3],
{
    reveal_with_fuel(be_value, 5);
    if b.len() >= 2 {
        assert(b.drop_last()[0] == b[0]);
        assert(b.drop_last().last() == b[b.len() - 2]);
    }
    if b.len() >= 3 {
        assert(b.drop_last().drop_last()[0] == b[0]);
        assert(b.drop_last().drop_last().last() == b[b.len() - 3]);
    }
    if b.len() >= 4 {
        assert(b.drop_last().drop_last().drop_last()[0] == b[0]);
        assert(b.drop_last().drop_last().drop_last().last() == b[0]);
    }
}

proof fn lemma_samples_cover(b: Seq<u8>, size: NalLengthSize)
    requires
        sample_units(b, size) is Ok,
    ensures
        length_prefixed_bytes(sample_units(b, size)->Ok_0, size) == b,
        forall|k: int|
            0 <= k < sample_units(b, size)->Ok_0.len() ==> (#[trigger] sample_units(
                b,
                size,
            )->Ok_0[k]).len() > 0,
    decreases b.len(),
{
    let n = size.spec_bytes() as int;
    let units = sample_units(b, size)->Ok_0;
    if b.len() < n {
        assert(b =~= Seq::<u8>::empty());
    } else {
        let length = be_value(b.take(n)) as int;
        let rest = b.skip(n);
        let tail = rest.skip(length);
        let unit = rest.take(length);
        lemma_samples_cover(tail, size);
        let others = sample_units(tail, size)->Ok_0;
        assert(units == seq![unit] + others);
        lemma_front(unit, others, size);
        lemma_be_kept(b.take(n));
        assert(b =~= b.take(n) + unit + tail);
        assert forall|k: int| 0 <= k < units.len() implies (#[trigger] units[k]).len() > 0 by {
            if k > 0 {
                assert(units[k] == others[k - 1]);
            }
        }
    }
}

proof fn lemma_be_kept(b: Seq<u8>)
    ensures
        be_bytes(be_value(b), b.len()) == b,
    decreases b.len(),
{
    if b.len() > 0 {
        lemma_be_kept(b.drop_last());
        let high = be_value(b.drop_last());
        assert((256 * high + b.last() as nat) / 256 == high);
        assert((256 * high + b.last() as nat) % 256 == b.last());
        assert(be_bytes(be_value(b), b.len()) =~= b);
    } else {
        assert(be_bytes(0, 0) =~= b);
    }
}

proof fn lemma_front(unit: Seq<u8>, others: Seq<Seq<u8>>, size: NalLengthSize)
    ensures
        length_prefixed_bytes(seq![unit] + others, size) == be_bytes(
            unit.len(),
            size.spec_bytes(),
        ) + unit + length_prefixed_bytes(others, size),
    decreases others.len(),
{
    let all = seq![unit] + others;
    let front = be_bytes(unit.len(), size.spec_bytes()) + unit;
    if others.len() == 0 {
        assert(all.drop_last() =~= Seq::<Seq<u8>>::empty());
        assert(all.last() == unit);
        assert(length_prefixed_bytes(all.drop_last(), size).len() == 0);
        assert(length_prefixed_bytes(others, size).len() == 0);
        assert(length_prefixed_bytes(all, size) =~= front + length_prefixed_bytes(others, size));
    } else {
        lemma_front(unit, others.drop_last(), size);
        assert(all.drop_last() =~= seq![unit] + others.drop_last());
        assert(all.last() == others.last());
        let last = be_bytes(others.last().len(), size.spec_bytes()) + others.last();
        assert(length_prefixed_bytes(all, size) =~= length_prefixed_bytes(all.drop_last(), size)
            + last);
        assert(length_prefixed_bytes(others, size) =~= length_prefixed_bytes(
            others.drop_last(),
            size,
        ) + last);
        assert(length_prefixed_bytes(all, size) =~= front + length_prefixed_bytes(others, size));
    }
}

/// A sample that can be read is nothing but its units, each behind its length, and none of
/// them is empty.
pub proof fn law_samples_are_their_units(b: Seq<u8>, size: NalLengthSize)
    requires
        sample_units(b, size) is Ok,
    ensures
        length_prefixed_bytes(sample_units(b, size)->Ok_0, size) == b,
        forall|k: int|
            0 <= k < sample_units(b, size)->Ok_0.len() ==> (#[trigger] sample_units(
                b,
                size,
            )->Ok_0[k]).len() > 0,
{
    lemma_samples_cover(b, size);
}

/// A unit that is reported as too long for its length is one, and those before it are not.
pub proof fn law_first_unit_that_is_too_long(units: Seq<Seq<u8>>, size: NalLengthSize)
    ensures
        0 <= first_too_long(units, size) <= units.len(),
        first_too_long(units, size) < units.len() ==> units[first_too_long(units, size)].len()
            > size.limit(),
        forall|k: int|
            0 <= k < first_too_long(units, size) ==> (#[trigger] units[k]).len() <= size.limit(),
    decreases units.len(),
{
    if units.len() > 0 {
        let rest = units.drop_last();
        law_first_unit_that_is_too_long(rest, size);
        assert forall|k: int| 0 <= k < first_too_long(units, size) implies (
        #[trigger] units[k]).len() <= size.limit() by {
            if k < rest.len() {
                assert(rest[k] == units[k]);
            }
        }
    }
}

// ---------------------------------------------------------------------------
// Payloads

/// Units that were written into a payload come out of it, whether they stand there behind
/// start codes or behind their lengths.
pub proof fn law_payloads_give_back_their_units(
    layout: EncodedLayout,
    units: Seq<Seq<u8>>,
    size: NalLengthSize,
    result: Result<Seq<Seq<u8>>, BitstreamError>,
)
    requires
        units.len() > 0,
        plain_units(units),
        all_fit(units, size),
        layout == EncodedLayout::AnnexB || layout == EncodedLayout::Avcc || layout
            == EncodedLayout::Hvcc,
        payload_units(
            layout,
            if layout == EncodedLayout::AnnexB {
                annexb_bytes(units)
            } else {
                length_prefixed_bytes(units, size)
            },
            size,
            result,
        ),
    ensures
        result == Ok::<Seq<Seq<u8>>, BitstreamError>(units),
{
    law_split_reads_back_appended_units(units);
    law_length_prefixed_round_trip(units, size);
}

/// What is opaque is never looked into.
pub proof fn law_opaque_payloads_are_refused(
    data: Seq<u8>,
    size: NalLengthSize,
    result: Result<Seq<Seq<u8>>, BitstreamError>,
)
    requires
        payload_units(EncodedLayout::Opaque, data, size, result),
    ensures
        result == Err::<Seq<Seq<u8>>, BitstreamError>(BitstreamError::OpaquePayload),
{
}

// ---------------------------------------------------------------------------
// Parameter sets

/// A unit has the given type in its header.
pub open spec fn has_type(codec: Codec, kind: int) -> spec_fn(Seq<u8>) -> bool {
    |unit: Seq<u8>| unit.len() > 0 && header_type(codec, unit) == kind
}

proof fn lemma_of_type(codec: Codec, units: Seq<Seq<u8>>, kind: u8)
    requires
        codec != Codec::Av1,
    ensures
        units_of_type(codec, units, kind) == units.filter(has_type(codec, kind as int)),
    decreases units.len(),
{
    reveal(Seq::filter);
    if units.len() > 0 {
        lemma_of_type(codec, units.drop_last(), kind);
        let unit = units.last();
        if unit.len() > 0 {
            crate::access_unit_laws::lemma_header_bits(unit[0]);
        }
    }
}

/// The parameter sets of a stream are all its units of the parameter set types and no others,
/// in their order: types 7 and 8 of H.264, and types 32, 33 and 34 of HEVC. For AV1 the
/// whole data is the one set.
pub proof fn law_parameter_sets_are_told_by_type(
    codec: Codec,
    units: Seq<Seq<u8>>,
    data: Seq<u8>,
    sets: ParameterSets,
)
    requires
        sets_among(codec, units, data, sets),
    ensures
        match codec {
            Codec::H264 => sets matches ParameterSets::H264(s) && byte_views(s.sps@)
                == units.filter(has_type(codec, 7)) && byte_views(s.pps@) == units.filter(
                has_type(codec, 8),
            ) && sets.listed() == units.filter(has_type(codec, 7)) + units.filter(
                has_type(codec, 8),
            ),
            Codec::Hevc => sets matches ParameterSets::Hevc(s) && byte_views(s.vps@)
                == units.filter(has_type(codec, 32)) && byte_views(s.sps@) == units.filter(
                has_type(codec, 33),
            ) && byte_views(s.pps@) == units.filter(has_type(codec, 34)) && sets.listed()
                == units.filter(has_type(codec, 32)) + units.filter(has_type(codec, 33))
                + units.filter(has_type(codec, 34)),
            Codec::Av1 => sets.listed() == seq![data],
        },
{
    if codec == Codec::H264 {
        lemma_of_type(codec, units, 7);
        lemma_of_type(codec, units, 8);
    } else if codec == Codec::Hevc {
        lemma_of_type(codec, units, 32);
        lemma_of_type(codec, units, 33);
        lemma_of_type(codec, units, 34);
    }
}

} // verus!
