//! Bit-level reading of coded byte strings.

use vstd::arithmetic::power2::*;
use vstd::prelude::*;

verus! {

/// The bit at a position, counted from the most significant bit of the first byte.
pub open spec fn bit_at(data: Seq<u8>, pos: int) -> bool {
    ((data[pos / 8] >> ((7 - pos % 8) as u8)) & 1u8) != 0
}

/// The number that `count` bits from `pos` on spell, most significant bit first.
pub open spec fn bits_value(data: Seq<u8>, pos: int, count: nat) -> nat
    decreases count,
{
    if count == 0 {
        0
    } else {
        2 * bits_value(data, pos, (count - 1) as nat)
            + if bit_at(data, pos + count - 1) { 1nat } else { 0nat }
    }
}

pub proof fn lemma_bits_value_bound(data: Seq<u8>, pos: int, count: nat)
    ensures
        bits_value(data, pos, count) < pow2(count),
    decreases count,
{
    if count == 0 {
        lemma2_to64();
    } else {
        lemma_bits_value_bound(data, pos, (count - 1) as nat);
        lemma_pow2_unfold(count);
    }
}

/// An unsigned Exp-Golomb code that starts at `pos` after `zeros` zero bits have
/// been read: its number and the position behind it. A code with more than 31
/// zero bits, or one that the data cut off, is none.
pub open spec fn exp_golomb(data: Seq<u8>, pos: int, zeros: nat) -> Option<(nat, int)>
    decreases 8 * data.len() - pos,
{
    if pos >= 8 * data.len() {
        None
    } else if bit_at(data, pos) {
        if pos + 1 + zeros <= 8 * data.len() {
            Some(((pow2(zeros) - 1 + bits_value(data, pos + 1, zeros)) as nat, pos + 1 + zeros))
        } else {
            None
        }
    } else if zeros >= 31 {
        None
    } else {
        exp_golomb(data, pos + 1, zeros + 1)
    }
}

/// The payload without emulation prevention: a byte 3 behind two zero bytes is
/// left out. The number is the length of the run of zero bytes at the end.
pub open spec fn unescaped(payload: Seq<u8>) -> (Seq<u8>, nat)
    decreases payload.len(),
{
    if payload.len() == 0 {
        (Seq::empty(), 0)
    } else {
        let (out, zeros) = unescaped(payload.drop_last());
        let byte = payload.last();
        if zeros >= 2 && byte == 3 {
            (out, 0)
        } else {
            (out.push(byte), if byte == 0 { zeros + 1 } else { 0 })
        }
    }
}

/// Whether a byte 3 stands behind two zero bytes at a position.
pub open spec fn escape_at(payload: Seq<u8>, i: int) -> bool {
    0 <= i && i + 2 < payload.len() && payload[i] == 0 && payload[i + 1] == 0 && payload[i + 2]
        == 3
}

proof fn lemma_zero_run(payload: Seq<u8>)
    requires
        forall|i: int| !escape_at(payload, i),
    ensures
        unescaped(payload).0 == payload,
        unescaped(payload).1 <= payload.len(),
        forall|k: int|
            payload.len() - unescaped(payload).1 <= k < payload.len() ==> payload[k] == 0,
    decreases payload.len(),
{
    if payload.len() > 0 {
        let rest = payload.drop_last();
        assert forall|i: int| !escape_at(rest, i) by {
            assert(!escape_at(payload, i));
        }
        lemma_zero_run(rest);
        let (out, zeros) = unescaped(rest);
        if zeros >= 2 && payload.last() == 3 {
            let n = payload.len() as int;
            assert(rest[n - 2] == 0 && rest[n - 3] == 0);
            assert(escape_at(payload, n - 3));
        }
        assert(out.push(payload.last()) =~= payload);
    }
}

/// A payload in which no byte 3 stands behind two zero bytes is left as it is.
pub proof fn law_unescape_keeps_plain_payload(payload: Seq<u8>)
    requires
        forall|i: int| !escape_at(payload, i),
    ensures
        unescaped(payload).0 == payload,
{
    lemma_zero_run(payload);
}

/// Removes emulation prevention bytes.
pub fn rbsp_from_ebsp(payload: &[u8]) -> (out: Vec<u8>)
    ensures
        out@ == unescaped(payload@).0,
{
    let mut out: Vec<u8> = Vec::with_capacity(payload.len());
    let mut zero_run: usize = 0;
    let mut i: usize = 0;
    while i < payload.len()
        invariant
            i <= payload.len(),
            zero_run <= i,
            (out@, zero_run as nat) == unescaped(payload@.take(i as int)),
        decreases payload.len() - i,
    {
        let byte: u8 = payload[i];
        proof {
            assert(payload@.take(i + 1).drop_last() =~= payload@.take(i as int));
        }
        if zero_run >= 2 && byte == 3 {
            zero_run = 0;
        } else {
            out.push(byte);
            if byte == 0 {
                zero_run = zero_run + 1;
            } else {
                zero_run = 0;
            }
        }
        i = i + 1;
    }
    assert(payload@.take(payload@.len() as int) =~= payload@);
    out
}

proof fn lemma_shift_in(v: u32)
    ensures
        (v << 1u32) as nat == (2 * v as nat) % 0x1_0000_0000,
        ((v << 1u32) | 1u32) as nat == (2 * v as nat) % 0x1_0000_0000 + 1,
{
    assert((v << 1u32) as u64 == (2 * (v as u64)) % 0x1_0000_0000) by (bit_vector);
    assert(((v << 1u32) | 1u32) as u64 == (2 * (v as u64)) % 0x1_0000_0000 + 1) by (bit_vector);
}

proof fn lemma_double_mod(n: nat)
    ensures
        (2 * (n % 0x1_0000_0000)) % 0x1_0000_0000 == (2 * n) % 0x1_0000_0000,
        (2 * (n % 0x1_0000_0000)) % 0x1_0000_0000 + 1 == (2 * n + 1) % 0x1_0000_0000,
{
}

/// A cursor over the bits of a byte string.
pub struct BitReader<'a> {
    data: &'a [u8],
    bit_pos: usize,
}

impl<'a> BitReader<'a> {
    pub closed spec fn data(self) -> Seq<u8> {
        self.data@
    }

    pub closed spec fn pos(self) -> int {
        self.bit_pos as int
    }

    /// The cursor can address every bit of its data.
    pub open spec fn addressable(self) -> bool {
        8 * self.data().len() <= usize::MAX
    }

    pub fn new(data: &'a [u8]) -> (r: Self)
        ensures
            r.data() == data@,
            r.pos() == 0,
    {
        BitReader { data, bit_pos: 0 }
    }

    /// The next bit, or none at the end of the data.
    pub fn read_bit(&mut self) -> (r: Option<bool>)
        ensures
            final(self).data() == old(self).data(),
            r is Some <==> old(self).addressable() && old(self).pos() < 8 * old(self).data().len(),
            r matches Some(bit) ==> bit == bit_at(old(self).data(), old(self).pos())
                && final(self).pos() == old(self).pos() + 1,
            r is None ==> final(self).pos() == old(self).pos(),
    {
        match self.data.len().checked_mul(8) {
            None => None,
            Some(total) => {
                if self.bit_pos >= total {
                    return None;
                }
                let byte: u8 = self.data[self.bit_pos / 8];
                let shift: u8 = (7 - (self.bit_pos % 8)) as u8;
                self.bit_pos = self.bit_pos + 1;
                assert(shift < 8);
                Some(((byte >> shift) & 1) != 0)
            },
        }
    }

    /// The number that the next bits spell, modulo 2 to the 32; none where the data
    /// end before.
    pub fn read_bits(&mut self, bits: usize) -> (r: Option<u32>)
        ensures
            final(self).data() == old(self).data(),
            r is Some <==> bits == 0 || (old(self).addressable() && old(self).pos() + bits <= 8
                * old(self).data().len()),
            r matches Some(value) ==> value as nat == bits_value(
                old(self).data(),
                old(self).pos(),
                bits as nat,
            ) % 0x1_0000_0000 && final(self).pos() == old(self).pos() + bits,
    {
        let mut value: u32 = 0;
        let mut i: usize = 0;
        while i < bits
            invariant
                i <= bits,
                self.data() == old(self).data(),
                self.pos() == old(self).pos() + i,
                i > 0 ==> old(self).addressable() && old(self).pos() + i <= 8
                    * old(self).data().len(),
                value as nat == bits_value(old(self).data(), old(self).pos(), i as nat)
                    % 0x1_0000_0000,
            decreases bits - i,
        {
            let before: u32 = value;
            match self.read_bit() {
                None => {
                    return None;
                },
                Some(bit) => {
                    proof {
                        lemma_shift_in(before);
                        lemma_double_mod(bits_value(old(self).data(), old(self).pos(), i as nat));
                    }
                    value = value << 1;
                    if bit {
                        value = value | 1;
                    }
                    i = i + 1;
                },
            }
        }
        Some(value)
    }

    /// The next unsigned Exp-Golomb code.
    pub fn read_ue(&mut self) -> (r: Option<u32>)
        ensures
            final(self).data() == old(self).data(),
            r is Some <==> old(self).addressable() && exp_golomb(
                old(self).data(),
                old(self).pos(),
                0,
            ) is Some,
            r matches Some(value) ==> exp_golomb(old(self).data(), old(self).pos(), 0) == Some(
                (value as nat, final(self).pos()),
            ),
    {
        let mut zeros: u32 = 0;
        loop
            invariant_except_break
                zeros <= 31,
                self.data() == old(self).data(),
                self.pos() == old(self).pos() + zeros,
                exp_golomb(self.data(), self.pos(), zeros as nat) == exp_golomb(
                    old(self).data(),
                    old(self).pos(),
                    0,
                ),
            ensures
                zeros <= 31,
                self.data() == old(self).data(),
                old(self).addressable(),
                self.pos() > 0,
                self.pos() - 1 < 8 * self.data().len(),
                bit_at(self.data(), self.pos() - 1),
                exp_golomb(self.data(), self.pos() - 1, zeros as nat) == exp_golomb(
                    old(self).data(),
                    old(self).pos(),
                    0,
                ),
            decreases 32 - zeros,
        {
            match self.read_bit() {
                None => {
                    return None;
                },
                Some(bit) => {
                    if bit {
                        break;
                    }
                    if zeros >= 31 {
                        return None;
                    }
                    zeros = zeros + 1;
                },
            }
        }
        let ghost start = self.pos();
        let suffix: u32 = if zeros == 0 {
            0
        } else {
            match self.read_bits(zeros as usize) {
                None => {
                    return None;
                },
                Some(value) => value,
            }
        };
        proof {
            lemma_bits_value_bound(self.data(), start, zeros as nat);
            lemma2_to64();
            vstd::bits::lemma_u32_shl_is_mul(1, zeros);
            if zeros < 31 {
                lemma_pow2_strictly_increases(zeros as nat, 31);
            }
            assert(suffix as nat == bits_value(self.data(), start, zeros as nat));
        }
        Some(((1u32 << zeros) - 1) + suffix)
    }
}

} // verus!
