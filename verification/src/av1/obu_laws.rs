//! What a list of open bitstream units says of the bytes that it was read from.

use super::obu::{
    leb128, leb_len, leb_value, leb_weight, obu_payload, obu_type_of, obus, obus_from, Av1ObuType,
    Obu,
};
use vstd::prelude::*;

verus! {

// ---------------------------------------------------------------------------
// Sizes

/// A number in groups of seven bits, the lowest first: all bytes but the last have their
/// top bit set.
pub open spec fn size_bytes(value: nat, count: nat) -> Seq<u8>
    decreases count,
{
    if count <= 1 {
        seq![(value % 128) as u8]
    } else {
        seq![(128 + value % 128) as u8] + size_bytes(value / 128, (count - 1) as nat)
    }
}

/// The numbers that fit so many groups of seven bits.
pub open spec fn size_fits(value: nat, count: nat) -> bool
    decreases count,
{
    if count <= 1 { count == 1 && value < 128 } else { size_fits(value / 128, (count - 1) as nat) }
}

proof fn lemma_value_shift(b: Seq<u8>, count: nat)
    requires
        1 <= count <= b.len(),
    ensures
        leb_value(b, count) == (b[0] % 128) as nat + 128 * leb_value(
            b.skip(1),
            (count - 1) as nat,
        ),
    decreases count,
{
    reveal_with_fuel(leb_value, 2);
    reveal_with_fuel(leb_weight, 2);
    if count > 1 {
        lemma_value_shift(b, (count - 1) as nat);
        let last = (b[count - 1] % 128) as nat;
        assert(b.skip(1)[count - 2] == b[count - 1]);
        assert(leb_weight((count - 1) as nat) == 128 * leb_weight((count - 2) as nat));
        let w = leb_weight((count - 2) as nat);
        assert(last * (128 * w) == 128 * (last * w)) by (nonlinear_arith);
        assert(leb_value(b, count) == leb_value(b, (count - 1) as nat) + last * leb_weight(
            (count - 1) as nat,
        ));
        assert(leb_value(b.skip(1), (count - 1) as nat) == leb_value(b.skip(1), (count - 2) as nat)
            + last * w);
    } else {
        let low = (b[0] % 128) as nat;
        assert(leb_value(b, 1) == leb_value(b, 0) + low * leb_weight(0));
        assert(low * 1 == low);
        assert(leb_value(b.skip(1), 0) == 0);
    }
}

proof fn lemma_size_len(b: Seq<u8>, from: nat, count: nat)
    requires
        from < count <= 8,
        count <= b.len(),
        forall|i: int| from <= i < count - 1 ==> b[i] >= 128,
        b[count - 1] < 128,
    ensures
        leb_len(b, from) == count,
    decreases count - from,
{
    if from + 1 < count {
        assert(b[from as int] >= 128);
        lemma_size_len(b, from + 1, count);
    }
}

proof fn lemma_size_bytes(value: nat, count: nat)
    requires
        1 <= count,
    ensures
        size_bytes(value, count).len() == count,
        forall|i: int| 0 <= i < count - 1 ==> (#[trigger] size_bytes(value, count)[i]) >= 128,
        size_bytes(value, count)[count - 1] < 128,
        size_bytes(value, count)[0] % 128 == value % 128,
    decreases count,
{
    if count > 1 {
        lemma_size_bytes(value / 128, (count - 1) as nat);
        let rest = size_bytes(value / 128, (count - 1) as nat);
        assert forall|i: int| 0 <= i < count - 1 implies (#[trigger] size_bytes(value, count)[i])
            >= 128 by {
            if i > 0 {
                assert(size_bytes(value, count)[i] == rest[i - 1]);
            }
        }
        assert(size_bytes(value, count)[count - 1] == rest[count - 2]);
    }
}

proof fn lemma_size_value(value: nat, count: nat, rest: Seq<u8>)
    requires
        size_fits(value, count),
    ensures
        leb_value(size_bytes(value, count) + rest, count) == value,
    decreases count,
{
    lemma_size_bytes(value, count);
    let b = size_bytes(value, count) + rest;
    assert(b[0] == size_bytes(value, count)[0]);
    lemma_value_shift(b, count);
    if count > 1 {
        lemma_size_value(value / 128, (count - 1) as nat, rest);
        assert(b.skip(1) =~= size_bytes(value / 128, (count - 1) as nat) + rest);
    } else {
        assert(leb_value(b.skip(1), 0) == 0);
    }
}

/// Every number that eight bytes can hold is read back from the groups of seven bits that it
/// was written in, whatever follows, and reading goes on right behind them.
pub proof fn law_sizes_read_back(value: nat, count: nat, rest: Seq<u8>)
    requires
        count <= 8,
        value <= usize::MAX,
        size_fits(value, count),
    ensures
        leb128(size_bytes(value, count) + rest) == Ok::<(nat, nat), Seq<char>>((value, count)),
{
    let b = size_bytes(value, count) + rest;
    lemma_size_bytes(value, count);
    assert forall|i: int| 0 <= i < count - 1 implies b[i] >= 128 by {
        assert(b[i] == size_bytes(value, count)[i]);
    }
    lemma_size_len(b, 0, count);
    lemma_size_value(value, count, rest);
}

// ---------------------------------------------------------------------------
// Units

/// Where a unit with a payload starts a new temporal unit.
pub open spec fn unit_after(before: Obu, obu_type: Av1ObuType) -> int {
    if obu_type == Av1ObuType::TemporalDelimiter && before.obu_type
        != Av1ObuType::TemporalDelimiter {
        before.temporal_unit + 1
    } else {
        before.temporal_unit
    }
}

/// The type in the header byte of a unit.
pub open spec fn header_type(byte: u8) -> Av1ObuType {
    match (byte / 8) % 16 {
        1 => Av1ObuType::SequenceHeader,
        2 => Av1ObuType::TemporalDelimiter,
        3 => Av1ObuType::FrameHeader,
        4 => Av1ObuType::TileGroup,
        5 => Av1ObuType::Metadata,
        6 => Av1ObuType::Frame,
        7 => Av1ObuType::RedundantFrameHeader,
        8 => Av1ObuType::TileList,
        15 => Av1ObuType::Padding,
        other => Av1ObuType::Unknown(other),
    }
}

pub open spec fn extension_len(byte: u8) -> int {
    if (byte / 4) % 2 == 1 { 1 } else { 0 }
}

/// The header of a unit: neither the top bit nor the lowest one is set, and the bit that says
/// that a size follows is. The size stands behind the extension byte, where there is one,
/// and is the length of the payload, which follows right behind.
pub open spec fn is_unit_at(b: Seq<u8>, obu: Obu) -> bool {
    &&& 0 <= obu.start < b.len()
    &&& b[obu.start] < 128
    &&& b[obu.start] % 2 == 0
    &&& (b[obu.start] / 2) % 2 == 1
    &&& obu.obu_type == header_type(b[obu.start])
    &&& leb128(b.skip(obu.start + 1 + extension_len(b[obu.start]))) matches Ok((len, code))
        && obu.payload_start == obu.start + 1 + extension_len(b[obu.start]) + code && obu.end
        == obu.payload_start + len
}

proof fn lemma_header_byte(byte: u8)
    ensures
        (byte & 0x80 != 0) == (byte >= 128),
        (byte & 0x04 != 0) == ((byte / 4) % 2 == 1),
        (byte & 0x02 != 0) == ((byte / 2) % 2 == 1),
        (byte & 0x01 != 0) == (byte % 2 == 1),
        (byte >> 3) & 0x0f == (byte / 8) % 16,
{
    assert((byte & 0x80 != 0) == (byte >= 128) && (byte & 0x04 != 0) == ((byte / 4) % 2 == 1) && (
    byte & 0x02 != 0) == ((byte / 2) % 2 == 1) && (byte & 0x01 != 0) == (byte % 2 == 1) && (byte
        >> 3) & 0x0f == (byte / 8) % 16) by (bit_vector);
}

proof fn lemma_units(b: Seq<u8>, at: int, unit: int, has_payload: bool)
    requires
        0 <= at <= b.len(),
        0 <= unit <= at,
        has_payload ==> unit < at,
        b.len() <= usize::MAX,
        obus_from(b, at, unit, has_payload) is Ok,
    ensures
        ({
            let list = obus_from(b, at, unit, has_payload)->Ok_0;
            &&& at < b.len() ==> list.len() > 0 && list[0].start == at
                && list[0].temporal_unit == (if list[0].obu_type == Av1ObuType::TemporalDelimiter
                && has_payload {
                unit + 1
            } else {
                unit
            })
            &&& list.len() > 0 ==> list.last().end == b.len()
            &&& forall|i: int| 0 <= i < list.len() ==> is_unit_at(b, #[trigger] list[i])
            &&& forall|i: int, j: int|
                0 <= i && j == i + 1 && j < list.len() ==> (#[trigger] list[j]).start == (
                #[trigger] list[i]).end && list[j].temporal_unit == unit_after(
                    list[i],
                    list[j].obu_type,
                )
        }),
    decreases b.len() - at,
{
    if at < b.len() {
        lemma_header_byte(b[at]);
        let (from, end) = obu_payload(b, at)->Ok_0;
        let size_at = at + 1 + extension_len(b[at]);
        let code = (leb128(b.skip(size_at))->Ok_0).1;
        assert(code > 0);
        let obu_type = obu_type_of((b[at] >> 3) & 0x0f);
        let delimiter = obu_type == Av1ObuType::TemporalDelimiter;
        let now = if delimiter && has_payload && unit < usize::MAX {
            unit + 1
        } else {
            unit
        };
        let obu = Obu { obu_type, start: at, payload_start: from, end, temporal_unit: now };
        assert(is_unit_at(b, obu));
        assert(now < end);
        lemma_units(b, end, now, !delimiter);
        let list = obus_from(b, at, unit, has_payload)->Ok_0;
        let rest = obus_from(b, end, now, !delimiter)->Ok_0;
        assert(list == seq![obu] + rest);
        assert(list[0] == obu);
        if rest.len() > 0 {
            assert(list.last() == rest.last());
        } else {
            assert(end == b.len());
        }
        assert forall|i: int| 0 <= i < list.len() implies is_unit_at(b, #[trigger] list[i]) by {
            if i > 0 {
                assert(list[i] == rest[i - 1]);
            }
        }
        assert forall|i: int, j: int|
            0 <= i && j == i + 1 && j < list.len() implies (#[trigger] list[j]).start == (
        #[trigger] list[i]).end && list[j].temporal_unit == unit_after(
            list[i],
            list[j].obu_type,
        ) by {
            assert(list[j] == rest[j - 1]);
            if i > 0 {
                assert(list[i] == rest[i - 1]);
            }
        }
    }
}

/// The units of a stream fill it without a gap, each is what its header byte and its size
/// say, and a new temporal unit begins at each delimiter that does not follow another one.
pub proof fn law_units_fill_the_stream(b: Seq<u8>)
    requires
        obus(b) is Ok,
        b.len() <= usize::MAX,
    ensures
        ({
            let list = obus(b)->Ok_0;
            &&& list.len() > 0
            &&& list[0].start == 0
            &&& list[0].temporal_unit == 0
            &&& list.last().end == b.len()
            &&& forall|i: int| 0 <= i < list.len() ==> is_unit_at(b, #[trigger] list[i])
            &&& forall|i: int, j: int|
                0 <= i && j == i + 1 && j < list.len() ==> (#[trigger] list[j]).start == (
                #[trigger] list[i]).end && list[j].temporal_unit == unit_after(
                    list[i],
                    list[j].obu_type,
                )
        }),
{
    lemma_units(b, 0, 0, false);
}

// ---------------------------------------------------------------------------
// Writing

/// A unit to be written: the number of its type, its extension byte, if it has one, its
/// payload, and how many bytes its size takes.
pub struct WrittenUnit {
    pub number: u8,
    pub extension: Option<u8>,
    pub payload: Seq<u8>,
    pub size_len: nat,
}

pub open spec fn unit_fits(unit: WrittenUnit) -> bool {
    unit.number < 16 && unit.size_len <= 8 && size_fits(unit.payload.len(), unit.size_len)
}

pub open spec fn unit_bytes(unit: WrittenUnit) -> Seq<u8> {
    (match unit.extension {
        None => seq![(8 * unit.number + 2) as u8],
        Some(byte) => seq![(8 * unit.number + 6) as u8, byte],
    }) + size_bytes(unit.payload.len(), unit.size_len) + unit.payload
}

pub open spec fn all_unit_bytes(units: Seq<WrittenUnit>) -> Seq<u8>
    decreases units.len(),
{
    if units.len() == 0 {
        Seq::empty()
    } else {
        unit_bytes(units[0]) + all_unit_bytes(units.skip(1))
    }
}

/// A unit was read with the type and the payload that it was written with.
pub open spec fn reads_as(b: Seq<u8>, obu: Obu, unit: WrittenUnit) -> bool {
    &&& obu.obu_type == header_type((8 * unit.number) as u8)
    &&& 0 <= obu.payload_start <= obu.end <= b.len()
    &&& b.subrange(obu.payload_start, obu.end) == unit.payload
}

proof fn lemma_written_unit(b: Seq<u8>, before: Seq<u8>, unit: WrittenUnit, after: Seq<u8>)
    requires
        b == before + unit_bytes(unit) + after,
        unit_fits(unit),
        b.len() <= usize::MAX,
    ensures
        ({
            let at = before.len() as int;
            &&& unit_bytes(unit).len() > 0
            &&& obu_payload(b, at) matches Ok((from, end)) && end == at + unit_bytes(unit).len()
                && from == end - unit.payload.len() && b.subrange(from, end) == unit.payload
            &&& obu_type_of((b[at] >> 3) & 0x0f) == header_type((8 * unit.number) as u8)
        }),
{
    let at = before.len() as int;
    let head = match unit.extension {
        None => seq![(8 * unit.number + 2) as u8],
        Some(byte) => seq![(8 * unit.number + 6) as u8, byte],
    };
    let size = size_bytes(unit.payload.len(), unit.size_len);
    lemma_size_bytes(unit.payload.len(), unit.size_len);
    assert(unit_bytes(unit) =~= head + size + unit.payload);
    assert(b[at] == unit_bytes(unit)[0]);
    assert(b[at] == head[0]);
    lemma_header_byte(b[at]);
    law_sizes_read_back(unit.payload.len(), unit.size_len, unit.payload + after);
    assert(b.skip(at + head.len()) =~= size + (unit.payload + after));
    let from = at + head.len() + unit.size_len;
    assert(b.subrange(from, from + unit.payload.len()) =~= unit.payload);
}

proof fn lemma_written_units(
    b: Seq<u8>,
    before: Seq<u8>,
    units: Seq<WrittenUnit>,
    unit: int,
    has_payload: bool,
)
    requires
        b == before + all_unit_bytes(units),
        forall|i: int| 0 <= i < units.len() ==> unit_fits(#[trigger] units[i]),
        b.len() <= usize::MAX,
    ensures
        obus_from(b, before.len() as int, unit, has_payload) matches Ok(list) && list.len()
            == units.len() && forall|i: int|
            0 <= i < units.len() ==> reads_as(b, #[trigger] list[i], units[i]),
    decreases units.len(),
{
    let at = before.len() as int;
    if units.len() == 0 {
        assert(b =~= before);
    } else {
        let first = units[0];
        let rest = units.skip(1);
        let bytes = unit_bytes(first);
        let after = all_unit_bytes(rest);
        assert(b =~= before + bytes + after);
        lemma_written_unit(b, before, first, after);
        let (from, end) = obu_payload(b, at)->Ok_0;
        let obu_type = obu_type_of((b[at] >> 3) & 0x0f);
        let delimiter = obu_type == Av1ObuType::TemporalDelimiter;
        let now = if delimiter && has_payload && unit < usize::MAX {
            unit + 1
        } else {
            unit
        };
        assert forall|i: int| 0 <= i < rest.len() implies unit_fits(#[trigger] rest[i]) by {
            assert(rest[i] == units[i + 1]);
        }
        lemma_written_units(b, before + bytes, rest, now, !delimiter);
        assert((before + bytes).len() == end);
        let list = obus_from(b, at, unit, has_payload)->Ok_0;
        let others = obus_from(b, end, now, !delimiter)->Ok_0;
        let obu = Obu { obu_type, start: at, payload_start: from, end, temporal_unit: now };
        assert(list == seq![obu] + others);
        assert forall|i: int| 0 <= i < units.len() implies reads_as(
            b,
            #[trigger] list[i],
            units[i],
        ) by {
            if i == 0 {
                assert(list[0] == obu);
            } else {
                assert(list[i] == others[i - 1]);
                assert(rest[i - 1] == units[i]);
            }
        }
    }
}

/// Units that were written one after the other are read back, each with its type and its
/// payload.
pub proof fn law_written_units_read_back(units: Seq<WrittenUnit>)
    requires
        units.len() > 0,
        forall|i: int| 0 <= i < units.len() ==> unit_fits(#[trigger] units[i]),
        all_unit_bytes(units).len() <= usize::MAX,
    ensures
        obus(all_unit_bytes(units)) matches Ok(list) && list.len() == units.len() && forall|i: int|
            0 <= i < units.len() ==> reads_as(all_unit_bytes(units), #[trigger] list[i], units[i]),
{
    let b = all_unit_bytes(units);
    assert(Seq::<u8>::empty() + b =~= b);
    lemma_written_units(b, Seq::empty(), units, 0, false);
    let first = unit_bytes(units[0]);
    lemma_size_bytes(units[0].payload.len(), units[0].size_len);
    assert(b[0] == first[0]);
    assert(first[0] != 0x44);
}

/// A file of the container that starts with the letters `DKIF` is refused as such; any other
/// data whose units can be told apart are accepted.
pub proof fn law_containers_are_refused(b: Seq<u8>)
    requires
        b.len() >= 4,
    ensures
        b.take(4) == seq![0x44u8, 0x4bu8, 0x49u8, 0x46u8] ==> obus(b) == Err::<Seq<Obu>, Seq<char>>(
            "AV1 IVF container input is not a low-overhead OBU elementary stream"@,
        ),
        b.take(4) != seq![0x44u8, 0x4bu8, 0x49u8, 0x46u8] && obus_from(b, 0, 0, false) is Ok
            ==> obus(b) is Ok,
{
    let head = b.take(4);
    assert(head[0] == b[0] && head[1] == b[1] && head[2] == b[2] && head[3] == b[3]);
    if b[0] == 0x44 && b[1] == 0x4b && b[2] == 0x49 && b[3] == 0x46 {
        assert(head =~= seq![0x44u8, 0x4bu8, 0x49u8, 0x46u8]);
    }
    if obus_from(b, 0, 0, false) is Ok {
        lemma_some_unit(b);
    }
}

proof fn lemma_some_unit(b: Seq<u8>)
    requires
        b.len() > 0,
        obus_from(b, 0, 0, false) is Ok,
    ensures
        obus_from(b, 0, 0, false)->Ok_0.len() > 0,
{
    let (from, end) = obu_payload(b, 0)->Ok_0;
    assert(end > 0);
}

} // verus!
