//! What reading bits gives back of what was written.

use crate::bits::{bit_at, bits_value, exp_golomb, unescaped};
use vstd::arithmetic::power2::{lemma_pow2_unfold, pow2};
use vstd::prelude::*;

verus! {

// ---------------------------------------------------------------------------
// Bits and fields

pub open spec fn digit(bit: bool) -> int {
    if bit { 1 } else { 0 }
}

/// The bits of a byte are counted from the most significant one, byte after byte.
pub proof fn law_bits_run_from_the_top(data: Seq<u8>, i: int)
    requires
        0 <= i < data.len(),
    ensures
        data[i] == 128 * digit(bit_at(data, 8 * i)) + 64 * digit(bit_at(data, 8 * i + 1)) + 32
            * digit(bit_at(data, 8 * i + 2)) + 16 * digit(bit_at(data, 8 * i + 3)) + 8 * digit(
            bit_at(data, 8 * i + 4),
        ) + 4 * digit(bit_at(data, 8 * i + 5)) + 2 * digit(bit_at(data, 8 * i + 6)) + digit(
            bit_at(data, 8 * i + 7),
        ),
{
    let b = data[i];
    assert(b == 128 * (if (b >> 7u8) & 1u8 != 0 { 1u8 } else { 0u8 }) + 64 * (if (b >> 6u8) & 1u8
        != 0 { 1u8 } else { 0u8 }) + 32 * (if (b >> 5u8) & 1u8 != 0 { 1u8 } else { 0u8 }) + 16 * (
    if (b >> 4u8) & 1u8 != 0 { 1u8 } else { 0u8 }) + 8 * (if (b >> 3u8) & 1u8 != 0 { 1u8 } else {
        0u8
    }) + 4 * (if (b >> 2u8) & 1u8 != 0 { 1u8 } else { 0u8 }) + 2 * (if (b >> 1u8) & 1u8 != 0 {
        1u8
    } else {
        0u8
    }) + (if (b >> 0u8) & 1u8 != 0 { 1u8 } else { 0u8 })) by (bit_vector);
    assert((8 * i) / 8 == i && (8 * i + 1) / 8 == i && (8 * i + 2) / 8 == i && (8 * i + 3) / 8 == i
        && (8 * i + 4) / 8 == i && (8 * i + 5) / 8 == i && (8 * i + 6) / 8 == i && (8 * i + 7) / 8
        == i);
}

/// A number written in binary with a given count of digits, the most significant first.
pub open spec fn binary(value: nat, count: nat) -> Seq<bool>
    decreases count,
{
    if count == 0 {
        Seq::empty()
    } else {
        binary(value / 2, (count - 1) as nat).push(value % 2 == 1)
    }
}

/// The given bits stand in the data from a position on.
pub open spec fn stands(data: Seq<u8>, pos: int, bits: Seq<bool>) -> bool {
    &&& 0 <= pos
    &&& pos + bits.len() <= 8 * data.len()
    &&& forall|k: int| 0 <= k < bits.len() ==> bit_at(data, pos + k) == #[trigger] bits[k]
}

pub proof fn lemma_binary_len(value: nat, count: nat)
    ensures
        binary(value, count).len() == count,
    decreases count,
{
    if count > 0 {
        lemma_binary_len(value / 2, (count - 1) as nat);
    }
}

/// What stands at a position stands there piece by piece.
pub proof fn lemma_stands_parts(data: Seq<u8>, pos: int, first: Seq<bool>, second: Seq<bool>)
    requires
        stands(data, pos, first + second),
    ensures
        stands(data, pos, first),
        stands(data, pos + first.len(), second),
{
    let whole = first + second;
    assert forall|k: int| 0 <= k < first.len() implies bit_at(data, pos + k) == #[trigger] first[k] by {
        assert(whole[k] == first[k]);
    }
    assert forall|k: int| 0 <= k < second.len() implies bit_at(data, pos + first.len() + k)
        == #[trigger] second[k] by {
        assert(whole[first.len() + k] == second[k]);
        assert(pos + first.len() + k == pos + (first.len() + k));
    }
}

/// A field gives back the number that was written in it.
pub proof fn law_fields_read_back(data: Seq<u8>, pos: int, value: nat, count: nat)
    requires
        value < pow2(count),
        stands(data, pos, binary(value, count)),
    ensures
        bits_value(data, pos, count) == value,
    decreases count,
{
    if count == 0 {
        vstd::arithmetic::power2::lemma2_to64();
    } else {
        lemma_pow2_unfold(count);
        lemma_binary_len(value / 2, (count - 1) as nat);
        assert(binary(value, count) =~= binary(value / 2, (count - 1) as nat) + seq![
            value % 2 == 1,
        ]);
        lemma_stands_parts(
            data,
            pos,
            binary(value / 2, (count - 1) as nat),
            seq![value % 2 == 1],
        );
        law_fields_read_back(data, pos, value / 2, (count - 1) as nat);
        assert(seq![value % 2 == 1][0] == (value % 2 == 1));
        assert(bit_at(data, pos + (count - 1) + 0) == (value % 2 == 1));
    }
}

// ---------------------------------------------------------------------------
// Exponential codes

/// The exponential code of a number: as many zeros as its successor has digits behind
/// the first, and then the successor in binary.
pub open spec fn exponential_code(value: nat, zeros: nat) -> Seq<bool> {
    Seq::new(zeros, |i: int| false) + binary(value + 1, zeros + 1)
}

/// A number has a code with this many zeros.
pub open spec fn has_zeros(value: nat, zeros: nat) -> bool {
    pow2(zeros) <= value + 1 < pow2(zeros + 1)
}

proof fn lemma_zeros_read(data: Seq<u8>, pos: int, read: nat, zeros: nat)
    requires
        read <= zeros <= 31,
        0 <= pos,
        pos + zeros - read < 8 * data.len(),
        forall|k: int| 0 <= k < zeros - read ==> !bit_at(data, #[trigger] (pos + k)),
    ensures
        exp_golomb(data, pos, read) == exp_golomb(data, pos + zeros - read, zeros),
    decreases zeros - read,
{
    if read < zeros {
        assert(!bit_at(data, pos + 0));
        assert forall|k: int| 0 <= k < zeros - read - 1 implies !bit_at(
            data,
            #[trigger] (pos + 1 + k),
        ) by {
            assert(!bit_at(data, pos + (k + 1)));
        }
        lemma_zeros_read(data, pos + 1, read + 1, zeros);
    }
}

/// The binary form of a number with as many digits as it needs starts with a one.
pub proof fn lemma_leading_one(value: nat, zeros: nat)
    requires
        pow2(zeros) <= value < pow2(zeros + 1),
    ensures
        binary(value, zeros + 1) == seq![true] + binary(
            (value - pow2(zeros)) as nat,
            zeros,
        ),
    decreases zeros,
{
    lemma_pow2_unfold(zeros + 1);
    vstd::arithmetic::power2::lemma2_to64();
    if zeros == 0 {
        assert(value == 1);
        assert(binary(0, 0) =~= Seq::<bool>::empty());
        assert(binary(1, 1) =~= seq![true]);
        assert(seq![true] + binary(0, 0) =~= seq![true]);
    } else {
        lemma_pow2_unfold(zeros);
        let half = pow2((zeros - 1) as nat);
        lemma_leading_one(value / 2, (zeros - 1) as nat);
        let rest = (value - pow2(zeros)) as nat;
        assert(rest / 2 == value / 2 - half && rest % 2 == value % 2);
        assert(binary(value, zeros + 1) =~= seq![true] + binary(rest, zeros));
    }
}

/// Every number below the largest of four bytes is read back from its exponential code, and
/// reading goes on right behind the code.
pub proof fn law_exponential_codes_read_back(data: Seq<u8>, pos: int, value: nat, zeros: nat)
    requires
        zeros <= 31,
        has_zeros(value, zeros),
        stands(data, pos, exponential_code(value, zeros)),
    ensures
        exp_golomb(data, pos, 0) == Some((value, pos + 2 * zeros + 1)),
{
    let code = exponential_code(value, zeros);
    let lead = Seq::new(zeros, |i: int| false);
    lemma_binary_len(value + 1, zeros + 1);
    lemma_stands_parts(data, pos, lead, binary(value + 1, zeros + 1));
    assert forall|k: int| 0 <= k < zeros implies !bit_at(data, #[trigger] (pos + k)) by {
        assert(!lead[k]);
    }
    lemma_zeros_read(data, pos, 0, zeros);
    let rest = (value + 1 - pow2(zeros)) as nat;
    lemma_leading_one(value + 1, zeros);
    lemma_pow2_unfold(zeros + 1);
    lemma_stands_parts(data, pos + zeros, seq![true], binary(rest, zeros));
    assert(seq![true][0]);
    assert(bit_at(data, pos + zeros + 0));
    law_fields_read_back(data, pos + zeros + 1, rest, zeros);
}

// ---------------------------------------------------------------------------
// Emulation prevention

/// A payload with a three before each byte of at most three that follows two zeros, and
/// how many zeros stand at its end since the last such three.
pub open spec fn escaped(payload: Seq<u8>) -> (Seq<u8>, nat)
    decreases payload.len(),
{
    if payload.len() == 0 {
        (Seq::empty(), 0)
    } else {
        let (out, zeros) = escaped(payload.drop_last());
        let byte = payload.last();
        let ends: nat = if byte != 0 {
            0
        } else if zeros == 2 {
            1
        } else {
            zeros + 1
        };
        if zeros == 2 && byte <= 3 {
            (out.push(3).push(byte), ends)
        } else {
            (out.push(byte), ends)
        }
    }
}

/// Taking the escapes out gives back what they were put into.
pub proof fn law_escaped_payload_reads_back(payload: Seq<u8>)
    ensures
        unescaped(escaped(payload).0).0 == payload,
        unescaped(escaped(payload).0).1 == escaped(payload).1,
        escaped(payload).1 <= 2,
    decreases payload.len(),
{
    reveal_with_fuel(unescaped, 3);
    if payload.len() > 0 {
        let before = payload.drop_last();
        law_escaped_payload_reads_back(before);
        let (out, zeros) = escaped(before);
        let byte = payload.last();
        assert(before.push(byte) =~= payload);
        if zeros == 2 && byte <= 3 {
            assert(out.push(3).push(byte).drop_last() =~= out.push(3));
            assert(out.push(3).drop_last() =~= out);
            assert(unescaped(out.push(3)) == (before, 0nat));
            assert(unescaped(out.push(3).push(byte)).0 =~= before.push(byte));
        } else {
            assert(out.push(byte).drop_last() =~= out);
            assert(unescaped(out.push(byte)).0 =~= before.push(byte));
        }
    }
}

/// The first byte of a payload is never taken for an escape, and nothing is added.
pub proof fn law_unescaping_keeps_the_first_byte(payload: Seq<u8>)
    ensures
        unescaped(payload).0.len() <= payload.len(),
        unescaped(payload).1 <= payload.len(),
        payload.len() > 0 ==> unescaped(payload).0.len() > 0 && unescaped(payload).0[0]
            == payload[0],
    decreases payload.len(),
{
    if payload.len() > 0 {
        law_unescaping_keeps_the_first_byte(payload.drop_last());
    }
}

} // verus!
