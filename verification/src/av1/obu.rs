//! Low-overhead open bitstream units.

use crate::text::{decimal, size_text};
use std::ops::Range;
use vstd::prelude::*;
use vstd::slice::*;
use vstd::string::*;

verus! {

#[derive(Debug, Clone, Copy, PartialEq, Eq, Structural)]
pub enum Av1ObuType {
    SequenceHeader,
    TemporalDelimiter,
    FrameHeader,
    TileGroup,
    Metadata,
    Frame,
    RedundantFrameHeader,
    TileList,
    Padding,
    Unknown(u8),
}

pub open spec fn obu_type_of(raw: u8) -> Av1ObuType {
    if raw == 1 {
        Av1ObuType::SequenceHeader
    } else if raw == 2 {
        Av1ObuType::TemporalDelimiter
    } else if raw == 3 {
        Av1ObuType::FrameHeader
    } else if raw == 4 {
        Av1ObuType::TileGroup
    } else if raw == 5 {
        Av1ObuType::Metadata
    } else if raw == 6 {
        Av1ObuType::Frame
    } else if raw == 7 {
        Av1ObuType::RedundantFrameHeader
    } else if raw == 8 {
        Av1ObuType::TileList
    } else if raw == 15 {
        Av1ObuType::Padding
    } else {
        Av1ObuType::Unknown(raw)
    }
}

pub fn av1_obu_type(raw: u8) -> (r: Av1ObuType)
    ensures
        r == obu_type_of(raw),
{
    match raw {
        1 => Av1ObuType::SequenceHeader,
        2 => Av1ObuType::TemporalDelimiter,
        3 => Av1ObuType::FrameHeader,
        4 => Av1ObuType::TileGroup,
        5 => Av1ObuType::Metadata,
        6 => Av1ObuType::Frame,
        7 => Av1ObuType::RedundantFrameHeader,
        8 => Av1ObuType::TileList,
        15 => Av1ObuType::Padding,
        other => Av1ObuType::Unknown(other),
    }
}

// ---------------------------------------------------------------------------
// Sizes

/// The weight of a digit of seven bits.
pub open spec fn leb_weight(k: nat) -> nat
    decreases k,
{
    if k == 0 { 1 } else { 128 * leb_weight((k - 1) as nat) }
}

/// The number that the low seven bits of the first `count` bytes spell, least
/// significant first.
pub open spec fn leb_value(b: Seq<u8>, count: nat) -> nat
    decreases count,
{
    if count == 0 {
        0
    } else {
        leb_value(b, (count - 1) as nat) + (b[count - 1] % 128) as nat * leb_weight(
            (count - 1) as nat,
        )
    }
}

/// The length of the code at the start: up to and with the first byte below 128,
/// within eight bytes. Zero where there is none.
pub open spec fn leb_len(b: Seq<u8>, from: nat) -> nat
    decreases 8 - from,
{
    if from >= 8 || from >= b.len() {
        0
    } else if b[from as int] < 128 {
        from + 1
    } else {
        leb_len(b, from + 1)
    }
}

/// A size and the length of its code, or why there is none.
pub open spec fn leb128(b: Seq<u8>) -> Result<(nat, nat), Seq<char>> {
    let n = leb_len(b, 0);
    if n > 0 {
        if leb_value(b, n) <= usize::MAX {
            Ok((leb_value(b, n), n))
        } else {
            Err("LEB128 value does not fit in usize"@)
        }
    } else if b.len() < 8 {
        Err("truncated LEB128 value"@)
    } else {
        Err("LEB128 value exceeds AV1 8-byte limit"@)
    }
}

proof fn lemma_leb_weight(k: nat)
    requires
        k <= 8,
    ensures
        leb_weight(k) <= 0x100_0000_0000_0000,
        k <= 7 ==> leb_weight(k) <= 0x2_0000_0000_0000,
{
    reveal_with_fuel(leb_weight, 9);
}

proof fn lemma_leb_value(b: Seq<u8>, count: nat)
    requires
        count <= 8,
    ensures
        leb_value(b, count) < leb_weight(count),
    decreases count,
{
    if count > 0 {
        lemma_leb_value(b, (count - 1) as nat);
        let w = leb_weight((count - 1) as nat);
        assert((b[count - 1] % 128) as nat * w <= 127 * w) by (nonlinear_arith)
            requires
                b[count - 1] % 128 <= 127,
        ;
    }
}

pub fn read_av1_leb128(bytes: &[u8]) -> (r: Result<(usize, usize), String>)
    ensures
        match leb128(bytes@) {
            Ok((value, len)) => r matches Ok(found) && found.0 == value && found.1 == len && len
                <= bytes@.len(),
            Err(e) => r matches Err(m) && m@ == e,
        },
{
    let mut value: u64 = 0;
    let mut weight: u64 = 1;
    let mut i: usize = 0;
    while i < 8 && i < bytes.len()
        invariant
            i <= 8,
            i <= bytes.len(),
            weight == leb_weight(i as nat),
            value == leb_value(bytes@, i as nat),
            leb_len(bytes@, 0) == leb_len(bytes@, i as nat),
        decreases 8 - i,
    {
        let byte: u8 = bytes[i];
        proof {
            lemma_leb_weight(i as nat);
            lemma_leb_weight((i + 1) as nat);
            lemma_leb_value(bytes@, (i + 1) as nat);
            assert((byte % 128) * weight <= 127 * weight) by (nonlinear_arith)
                requires
                    byte % 128 <= 127,
            ;
        }
        value = value + (byte % 128) as u64 * weight;
        if byte < 128 {
            if value > usize::MAX as u64 {
                return Err(String::from_str("LEB128 value does not fit in usize"));
            }
            return Ok((value as usize, i + 1));
        }
        weight = weight * 128;
        i = i + 1;
    }
    if bytes.len() < 8 {
        Err(String::from_str("truncated LEB128 value"))
    } else {
        Err(String::from_str("LEB128 value exceeds AV1 8-byte limit"))
    }
}

// ---------------------------------------------------------------------------
// Units

#[derive(Debug, PartialEq, Eq)]
pub struct Av1ObuRecord {
    pub obu_type: Av1ObuType,
    pub obu_range: Range<usize>,
    pub payload_range: Range<usize>,
    pub temporal_unit_index: usize,
}

/// A unit: its type, where it starts, where its payload starts and ends, and the
/// temporal unit that it belongs to.
pub struct Obu {
    pub obu_type: Av1ObuType,
    pub start: int,
    pub payload_start: int,
    pub end: int,
    pub temporal_unit: int,
}

impl View for Av1ObuRecord {
    type V = Obu;

    open spec fn view(&self) -> Obu {
        Obu {
            obu_type: self.obu_type,
            start: self.obu_range.start as int,
            payload_start: self.payload_range.start as int,
            end: self.payload_range.end as int,
            temporal_unit: self.temporal_unit_index as int,
        }
    }
}

impl Av1ObuRecord {
    /// Both ranges end at the same place.
    pub open spec fn consistent(self) -> bool {
        self.obu_range.end == self.payload_range.end && self.obu_range.start
            <= self.payload_range.start <= self.payload_range.end
    }
}

pub open spec fn obu_views(records: Seq<Av1ObuRecord>) -> Seq<Obu> {
    Seq::new(records.len(), |i: int| records[i]@)
}

/// A header byte and where its unit starts, as the start of an error message.
pub open spec fn at_offset(start: int) -> Seq<char> {
    "AV1 OBU at offset "@ + decimal(start as nat)
}

/// The payload of the unit that starts at `start`, or why there is none.
pub open spec fn obu_payload(b: Seq<u8>, start: int) -> Result<(int, int), Seq<char>> {
    let header = b[start];
    let extension = header & 0x04 != 0;
    let size_at = if extension { start + 2 } else { start + 1 };
    if header & 0x80 != 0 {
        Err(at_offset(start) + " sets obu_forbidden_bit"@)
    } else if header & 0x01 != 0 {
        Err(at_offset(start) + " sets reserved bit"@)
    } else if extension && start + 1 >= b.len() {
        Err(at_offset(start) + " is truncated before extension header"@)
    } else if header & 0x02 == 0 {
        Err(at_offset(start) + " lacks the low-overhead size field"@)
    } else {
        match leb128(b.skip(size_at)) {
            Err(e) => Err(at_offset(start) + " has invalid size: "@ + e),
            Ok((len, code)) => {
                let from = size_at + code;
                if from + len > usize::MAX {
                    Err(at_offset(start) + " size overflows usize"@)
                } else if from + len > b.len() {
                    Err(
                        at_offset(start) + " is truncated: payload_end="@ + decimal(
                            (from + len) as nat,
                        ) + ", len="@ + decimal(b.len()),
                    )
                } else {
                    Ok((from, from + len))
                }
            },
        }
    }
}

/// The units from `at` on, where `unit` temporal units have begun before the current
/// one and `has_payload` says whether the current one holds more than delimiters.
pub open spec fn obus_from(b: Seq<u8>, at: int, unit: int, has_payload: bool) -> Result<
    Seq<Obu>,
    Seq<char>,
>
    decreases b.len() - at,
{
    if at >= b.len() || at < 0 {
        Ok(Seq::empty())
    } else {
        match obu_payload(b, at) {
            Err(e) => Err(e),
            Ok((from, end)) => {
                let obu_type = obu_type_of((b[at] >> 3) & 0x0f);
                let delimiter = obu_type == Av1ObuType::TemporalDelimiter;
                let now = if delimiter && has_payload && unit < usize::MAX { unit + 1 } else { unit };
                let obu = Obu {
                    obu_type,
                    start: at,
                    payload_start: from,
                    end,
                    temporal_unit: now,
                };
                if end <= at {
                    Ok(Seq::empty())
                } else {
                    match obus_from(b, end, now, !delimiter) {
                        Err(e) => Err(e),
                        Ok(rest) => Ok(seq![obu] + rest),
                    }
                }
            },
        }
    }
}

/// The units of a low-overhead bitstream, or why it is none.
pub open spec fn obus(b: Seq<u8>) -> Result<Seq<Obu>, Seq<char>> {
    if b.len() >= 4 && b[0] == 0x44 && b[1] == 0x4b && b[2] == 0x49 && b[3] == 0x46 {
        Err("AV1 IVF container input is not a low-overhead OBU elementary stream"@)
    } else {
        match obus_from(b, 0, 0, false) {
            Err(e) => Err(e),
            Ok(list) => if list.len() == 0 {
                Err("AV1 bitstream contains no OBUs"@)
            } else {
                Ok(list)
            },
        }
    }
}

/// The units lie one behind the other inside the data, from `at` on.
pub open spec fn obus_in_order(list: Seq<Obu>, at: int, len: int) -> bool {
    &&& forall|i: int|
        0 <= i < list.len() ==> at <= (#[trigger] list[i]).start < list[i].payload_start
            <= list[i].end <= len
    &&& forall|i: int, j: int|
        0 <= i < j < list.len() ==> (#[trigger] list[i]).end <= (#[trigger] list[j]).start
}

proof fn lemma_obus_from_in_order(b: Seq<u8>, at: int, unit: int, has_payload: bool)
    requires
        0 <= at,
        obus_from(b, at, unit, has_payload) is Ok,
    ensures
        obus_in_order(obus_from(b, at, unit, has_payload)->Ok_0, at, b.len() as int),
    decreases b.len() - at,
{
    if at < b.len() {
        let (from, end) = obu_payload(b, at)->Ok_0;
        assert(at < from <= end <= b.len());
        let obu_type = obu_type_of((b[at] >> 3) & 0x0f);
        let delimiter = obu_type == Av1ObuType::TemporalDelimiter;
        let now = if delimiter && has_payload && unit < usize::MAX { unit + 1 } else { unit };
        lemma_obus_from_in_order(b, end, now, !delimiter);
        let rest = obus_from(b, end, now, !delimiter)->Ok_0;
        let list = obus_from(b, at, unit, has_payload)->Ok_0;
        assert forall|i: int| 0 <= i < list.len() implies at <= (#[trigger] list[i]).start
            < list[i].payload_start <= list[i].end <= b.len() by {
            if i > 0 {
                assert(list[i] == rest[i - 1]);
            }
        }
        assert forall|i: int, j: int| 0 <= i < j < list.len() implies (#[trigger] list[i]).end
            <= (#[trigger] list[j]).start by {
            assert(list[j] == rest[j - 1]);
            if i > 0 {
                assert(list[i] == rest[i - 1]);
            }
        }
    }
}

/// The units of a bitstream follow each other without overlap and lie inside it.
pub proof fn law_obus_in_order(b: Seq<u8>)
    requires
        obus(b) is Ok,
    ensures
        obus_in_order(obus(b)->Ok_0, 0, b.len() as int),
        obus(b)->Ok_0.len() > 0,
{
    lemma_obus_from_in_order(b, 0, 0, false);
}

/// Where the payload of a unit starts and ends.
fn find_payload(bitstream: &[u8], start: usize) -> (r: Result<(usize, usize), String>)
    requires
        start < bitstream.len(),
    ensures
        match obu_payload(bitstream@, start as int) {
            Ok((from, end)) => r matches Ok(found) && found.0 == from && found.1 == end && start
                < found.0 <= found.1 <= bitstream@.len(),
            Err(e) => r matches Err(m) && m@ == e,
        },
{
    let header: u8 = bitstream[start];
    let prefix = String::from_str("AV1 OBU at offset ").concat(size_text(start).as_str());
    if header & 0x80 != 0 {
        return Err(prefix.concat(" sets obu_forbidden_bit"));
    }
    if header & 0x01 != 0 {
        return Err(prefix.concat(" sets reserved bit"));
    }
    let mut at: usize = start + 1;
    if header & 0x04 != 0 {
        if at >= bitstream.len() {
            return Err(prefix.concat(" is truncated before extension header"));
        }
        at = at + 1;
    }
    if header & 0x02 == 0 {
        return Err(prefix.concat(" lacks the low-overhead size field"));
    }
    let size_bytes = slice_subrange(bitstream, at, bitstream.len());
    assert(size_bytes@ =~= bitstream@.skip(at as int));
    let (payload_len, code_len): (usize, usize) = match read_av1_leb128(size_bytes) {
        Ok(found) => found,
        Err(e) => {
            return Err(prefix.concat(" has invalid size: ").concat(e.as_str()));
        },
    };
    let payload_start: usize = at + code_len;
    let payload_end: usize = match payload_start.checked_add(payload_len) {
        Some(end) => end,
        None => {
            return Err(prefix.concat(" size overflows usize"));
        },
    };
    if payload_end > bitstream.len() {
        return Err(
            prefix.concat(" is truncated: payload_end=").concat(
                size_text(payload_end).as_str(),
            ).concat(", len=").concat(size_text(bitstream.len()).as_str()),
        );
    }
    Ok((payload_start, payload_end))
}

/// Splits a low-overhead bitstream into its units.
pub fn parse_av1_low_overhead_obus(bitstream: &[u8]) -> (r: Result<Vec<Av1ObuRecord>, String>)
    ensures
        match obus(bitstream@) {
            Ok(list) => r matches Ok(records) && obu_views(records@) == list && forall|i: int|
                0 <= i < records@.len() ==> (#[trigger] records@[i]).consistent(),
            Err(e) => r matches Err(m) && m@ == e,
        },
{
    if bitstream.len() >= 4 && bitstream[0] == 0x44 && bitstream[1] == 0x4b && bitstream[2] == 0x49
        && bitstream[3] == 0x46 {
        return Err(
            String::from_str(
                "AV1 IVF container input is not a low-overhead OBU elementary stream",
            ),
        );
    }
    let mut records: Vec<Av1ObuRecord> = Vec::new();
    let mut cursor: usize = 0;
    let mut unit: usize = 0;
    let mut has_payload: bool = false;
    let ghost whole = obus_from(bitstream@, 0, 0, false);
    proof {
        if whole is Ok {
            assert(obu_views(records@) + whole->Ok_0 =~= whole->Ok_0);
        }
    }
    while cursor < bitstream.len()
        invariant
            cursor <= bitstream.len(),
            !(bitstream@.len() >= 4 && bitstream@[0] == 0x44 && bitstream@[1] == 0x4b
                && bitstream@[2] == 0x49 && bitstream@[3] == 0x46),
            whole == obus_from(bitstream@, 0, 0, false),
            whole == (match obus_from(bitstream@, cursor as int, unit as int, has_payload) {
                Ok(rest) => Ok::<Seq<Obu>, Seq<char>>(obu_views(records@) + rest),
                Err(e) => Err(e),
            }),
            forall|i: int| 0 <= i < records@.len() ==> (#[trigger] records@[i]).consistent(),
        decreases bitstream.len() - cursor,
    {
        let start: usize = cursor;
        let (payload_start, payload_end): (usize, usize) = match find_payload(bitstream, start) {
            Ok(found) => found,
            Err(e) => {
                return Err(e);
            },
        };
        let obu_type = av1_obu_type((bitstream[start] >> 3) & 0x0f);
        let ghost before = obu_views(records@);
        let delimiter: bool = match obu_type {
            Av1ObuType::TemporalDelimiter => true,
            _ => false,
        };
        if delimiter && has_payload && unit < usize::MAX {
            unit = unit + 1;
        }
        records.push(
            Av1ObuRecord {
                obu_type,
                obu_range: Range { start, end: payload_end },
                payload_range: Range { start: payload_start, end: payload_end },
                temporal_unit_index: unit,
            },
        );
        has_payload = !delimiter;
        cursor = payload_end;
        proof {
            let obu = records@.last()@;
            assert(obu_views(records@) =~= before.push(obu));
            let rest = obus_from(bitstream@, cursor as int, unit as int, has_payload);
            if rest is Ok {
                assert(before + (seq![obu] + rest->Ok_0) =~= before.push(obu) + rest->Ok_0);
            }
        }
    }
    assert(obu_views(records@) + Seq::<Obu>::empty() =~= obu_views(records@));
    if records.len() == 0 {
        return Err(String::from_str("AV1 bitstream contains no OBUs"));
    }
    Ok(records)
}

} // verus!
