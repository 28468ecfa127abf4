//! Reading named bit fields.

use crate::bits::{bit_at, bits_value};
use crate::text::{decimal, size_text};
use vstd::arithmetic::power2::*;
use vstd::prelude::*;
use vstd::string::*;

verus! {

/// The number of bits that can be read from a byte string.
pub open spec fn readable_bits(data: Seq<u8>) -> int {
    if 8 * data.len() <= usize::MAX { 8 * data.len() as int } else { usize::MAX as int }
}

/// Why a field cannot be read.
pub open spec fn field_end_message(data: Seq<u8>, name: Seq<char>) -> Seq<char> {
    if 8 * data.len() <= usize::MAX {
        "sequence header ended while reading "@ + name
    } else {
        "bit offset overflow"@
    }
}

/// The position behind a field, given the position before it. An earlier failure
/// is handed on.
pub open spec fn skip(
    data: Seq<u8>,
    at: Result<int, Seq<char>>,
    count: nat,
    name: Seq<char>,
) -> Result<int, Seq<char>> {
    match at {
        Err(e) => Err(e),
        Ok(pos) => if pos + count <= readable_bits(data) {
            Ok(pos + count)
        } else {
            Err(field_end_message(data, name))
        },
    }
}

/// Whether the bit before a position is set; false behind a failure.
pub open spec fn flag(data: Seq<u8>, at: Result<int, Seq<char>>) -> bool {
    at matches Ok(pos) && bit_at(data, pos - 1)
}

/// The value of the field of `count` bits that ends at a position; zero behind a
/// failure.
pub open spec fn field(data: Seq<u8>, at: Result<int, Seq<char>>, count: nat) -> nat {
    match at {
        Ok(pos) => bits_value(data, pos - count, count),
        Err(_) => 0,
    }
}

/// A variable length code of which `zeros` zero bits have been read: its value and
/// the position behind it.
pub open spec fn variable_code(
    data: Seq<u8>,
    at: Result<int, Seq<char>>,
    zeros: nat,
    name: Seq<char>,
) -> Result<(nat, int), Seq<char>>
    decreases readable_bits(data) - (match at { Ok(pos) => pos, Err(_) => readable_bits(data) }),
{
    match skip(data, at, 1, name) {
        Err(e) => Err(e),
        Ok(next) => if bit_at(data, next - 1) {
            if zeros >= 63 {
                Err(name + " UVLC value exceeds u64 range"@)
            } else {
                match skip(data, Ok(next), zeros, name) {
                    Err(e) => Err(e),
                    Ok(end) => Ok(
                        ((pow2(zeros) - 1 + bits_value(data, next, zeros)) as nat, end),
                    ),
                }
            }
        } else {
            variable_code(data, Ok(next), zeros + 1, name)
        },
    }
}

/// The position behind a variable length code.
pub open spec fn skip_code(data: Seq<u8>, at: Result<int, Seq<char>>, name: Seq<char>) -> Result<
    int,
    Seq<char>,
> {
    match variable_code(data, at, 0, name) {
        Ok((_, end)) => Ok(end),
        Err(e) => Err(e),
    }
}

/// A cursor over named bit fields.
pub struct FieldReader<'a> {
    data: &'a [u8],
    bit_offset: usize,
}

impl<'a> FieldReader<'a> {
    pub closed spec fn data(self) -> Seq<u8> {
        self.data@
    }

    pub closed spec fn pos(self) -> int {
        self.bit_offset as int
    }

    /// The cursor does not stand behind what can be read.
    pub open spec fn valid(self) -> bool {
        0 <= self.pos() <= readable_bits(self.data())
    }

    pub fn new(data: &'a [u8]) -> (r: Self)
        ensures
            r.data() == data@,
            r.pos() == 0,
            r.valid(),
    {
        FieldReader { data, bit_offset: 0 }
    }

    /// The value of the next `count` bits.
    pub fn read_bits(&mut self, count: usize, field_name: &str) -> (r: Result<u64, String>)
        requires
            old(self).valid(),
        ensures
            final(self).valid(),
            final(self).data() == old(self).data(),
            count > 64 ==> (r matches Err(e) && e@ == field_name@ + " bit count "@ + decimal(
                count as nat,
            ) + " exceeds 64"@),
            count <= 64 ==> match skip(
                old(self).data(),
                Ok(old(self).pos()),
                count as nat,
                field_name@,
            ) {
                Ok(next) => r matches Ok(value) && final(self).pos() == next && value
                    == bits_value(old(self).data(), old(self).pos(), count as nat),
                Err(e) => r matches Err(m) && m@ == e,
            },
    {
        if count > 64 {
            return Err(
                String::from_str(field_name).concat(" bit count ").concat(
                    size_text(count).as_str(),
                ).concat(" exceeds 64"),
            );
        }
        let mut value: u64 = 0;
        let mut i: usize = 0;
        while i < count
            invariant
                i <= count <= 64,
                self.valid(),
                self.data() == old(self).data(),
                self.pos() == old(self).pos() + i,
                value == bits_value(self.data(), old(self).pos(), i as nat),
            decreases count - i,
        {
            if self.bit_offset / 8 >= self.data.len() {
                return Err(
                    String::from_str("sequence header ended while reading ").concat(field_name),
                );
            }
            let byte: u8 = self.data[self.bit_offset / 8];
            let shift: u8 = (7 - (self.bit_offset % 8)) as u8;
            let bit: u8 = (byte >> shift) & 1;
            proof {
                let before = bits_value(self.data(), old(self).pos(), i as nat);
                crate::bits::lemma_bits_value_bound(self.data(), old(self).pos(), i as nat);
                lemma2_to64_rest();
                lemma2_to64();
                if i < 63 {
                    lemma_pow2_strictly_increases(i as nat, 63);
                }
                assert(bit == 0 || bit == 1) by (bit_vector)
                    requires
                        bit == (byte >> shift) & 1,
                ;
                assert(value < 0x8000_0000_0000_0000);
                assert(((value << 1) | (bit as u64)) == 2 * value + bit) by (bit_vector)
                    requires
                        bit == 0 || bit == 1,
                        value < 0x8000_0000_0000_0000,
                ;
            }
            let next_value: u64 = (value << 1) | (bit as u64);
            match self.bit_offset.checked_add(1) {
                Some(next) => {
                    self.bit_offset = next;
                },
                None => {
                    return Err(String::from_str("bit offset overflow"));
                },
            }
            value = next_value;
            i = i + 1;
        }
        Ok(value)
    }

    /// The value of the next `count` bits, if it fits in 8 bits.
    pub fn read_bits_u8(&mut self, count: usize, field_name: &str) -> (r: Result<u8, String>)
        requires
            old(self).valid(),
        ensures
            final(self).valid(),
            final(self).data() == old(self).data(),
            count > 64 ==> (r matches Err(e) && e@ == field_name@ + " bit count "@ + decimal(
                count as nat,
            ) + " exceeds 64"@),
            count <= 64 ==> match skip(
                old(self).data(),
                Ok(old(self).pos()),
                count as nat,
                field_name@,
            ) {
                Ok(next) => final(self).pos() == next && ({
                    let wide = bits_value(old(self).data(), old(self).pos(), count as nat);
                    if wide <= u8::MAX {
                        r matches Ok(value) && value == wide && value < pow2(count as nat)
                    } else {
                        r matches Err(m) && m@ == field_name@ + " does not fit in u8"@
                    }
                }),
                Err(e) => r matches Err(m) && m@ == e,
            },
            count <= 8 && skip(
                old(self).data(),
                Ok(old(self).pos()),
                count as nat,
                field_name@,
            ) is Ok ==> r is Ok,
    {
        proof {
            crate::bits::lemma_bits_value_bound(self.data(), self.pos(), count as nat);
            lemma2_to64();
            if count < 8 {
                lemma_pow2_strictly_increases(count as nat, 8);
            }
        }
        match self.read_bits(count, field_name) {
            Ok(value) => if value <= 0xff {
                Ok(value as u8)
            } else {
                Err(String::from_str(field_name).concat(" does not fit in u8"))
            },
            Err(e) => Err(e),
        }
    }

    /// The value of the next `count` bits, if it fits in 16 bits.
    pub fn read_bits_u16(&mut self, count: usize, field_name: &str) -> (r: Result<u16, String>)
        requires
            old(self).valid(),
        ensures
            final(self).valid(),
            final(self).data() == old(self).data(),
            count > 64 ==> (r matches Err(e) && e@ == field_name@ + " bit count "@ + decimal(
                count as nat,
            ) + " exceeds 64"@),
            count <= 64 ==> match skip(
                old(self).data(),
                Ok(old(self).pos()),
                count as nat,
                field_name@,
            ) {
                Ok(next) => final(self).pos() == next && ({
                    let wide = bits_value(old(self).data(), old(self).pos(), count as nat);
                    if wide <= u16::MAX {
                        r matches Ok(value) && value == wide && value < pow2(count as nat)
                    } else {
                        r matches Err(m) && m@ == field_name@ + " does not fit in u16"@
                    }
                }),
                Err(e) => r matches Err(m) && m@ == e,
            },
            count <= 16 && skip(
                old(self).data(),
                Ok(old(self).pos()),
                count as nat,
                field_name@,
            ) is Ok ==> r is Ok,
    {
        proof {
            crate::bits::lemma_bits_value_bound(self.data(), self.pos(), count as nat);
            lemma2_to64();
            if count < 16 {
                lemma_pow2_strictly_increases(count as nat, 16);
            }
        }
        match self.read_bits(count, field_name) {
            Ok(value) => if value <= 0xffff {
                Ok(value as u16)
            } else {
                Err(String::from_str(field_name).concat(" does not fit in u16"))
            },
            Err(e) => Err(e),
        }
    }

    /// The value of the next `count` bits, if it fits in 32 bits.
    pub fn read_bits_u32(&mut self, count: usize, field_name: &str) -> (r: Result<u32, String>)
        requires
            old(self).valid(),
        ensures
            final(self).valid(),
            final(self).data() == old(self).data(),
            count > 64 ==> (r matches Err(e) && e@ == field_name@ + " bit count "@ + decimal(
                count as nat,
            ) + " exceeds 64"@),
            count <= 64 ==> match skip(
                old(self).data(),
                Ok(old(self).pos()),
                count as nat,
                field_name@,
            ) {
                Ok(next) => final(self).pos() == next && ({
                    let wide = bits_value(old(self).data(), old(self).pos(), count as nat);
                    if wide <= u32::MAX {
                        r matches Ok(value) && value == wide && value < pow2(count as nat)
                    } else {
                        r matches Err(m) && m@ == field_name@ + " does not fit in u32"@
                    }
                }),
                Err(e) => r matches Err(m) && m@ == e,
            },
            count <= 32 && skip(
                old(self).data(),
                Ok(old(self).pos()),
                count as nat,
                field_name@,
            ) is Ok ==> r is Ok,
    {
        proof {
            crate::bits::lemma_bits_value_bound(self.data(), self.pos(), count as nat);
            lemma2_to64();
            if count < 32 {
                lemma_pow2_strictly_increases(count as nat, 32);
            }
        }
        match self.read_bits(count, field_name) {
            Ok(value) => if value <= 0xffff_ffff {
                Ok(value as u32)
            } else {
                Err(String::from_str(field_name).concat(" does not fit in u32"))
            },
            Err(e) => Err(e),
        }
    }

    pub fn read_bool(&mut self, field_name: &str) -> (r: Result<bool, String>)
        requires
            old(self).valid(),
        ensures
            final(self).valid(),
            final(self).data() == old(self).data(),
            match skip(old(self).data(), Ok(old(self).pos()), 1, field_name@) {
                Ok(next) => r matches Ok(value) && final(self).pos() == next && value == bit_at(
                    old(self).data(),
                    old(self).pos(),
                ),
                Err(e) => r matches Err(m) && m@ == e,
            },
    {
        proof {
            reveal_with_fuel(bits_value, 2);
        }
        match self.read_bits_u8(1, field_name) {
            Ok(value) => Ok(value != 0),
            Err(e) => Err(e),
        }
    }

    /// The next variable length code.
    pub fn read_uvlc(&mut self, field_name: &str) -> (r: Result<u64, String>)
        requires
            old(self).valid(),
        ensures
            final(self).valid(),
            final(self).data() == old(self).data(),
            match variable_code(old(self).data(), Ok(old(self).pos()), 0, field_name@) {
                Ok((value, end)) => r matches Ok(v) && v == value && final(self).pos() == end,
                Err(e) => r matches Err(m) && m@ == e,
            },
    {
        let mut zeros: usize = 0;
        let ghost whole = variable_code(self.data(), Ok(self.pos()), 0, field_name@);
        loop
            invariant_except_break
                self.valid(),
                self.data() == old(self).data(),
                self.pos() == old(self).pos() + zeros,
                old(self).pos() >= 0,
                whole == variable_code(old(self).data(), Ok(old(self).pos()), 0, field_name@),
                whole == variable_code(self.data(), Ok(self.pos()), zeros as nat, field_name@),
            ensures
                self.valid(),
                self.data() == old(self).data(),
                self.pos() >= 1,
                bit_at(self.data(), self.pos() - 1),
                whole == variable_code(self.data(), Ok(self.pos() - 1), zeros as nat, field_name@),
            decreases readable_bits(self.data()) - self.pos(),
        {
            match self.read_bool(field_name) {
                Ok(bit) => {
                    if bit {
                        break;
                    }
                    zeros = zeros + 1;
                },
                Err(e) => {
                    return Err(e);
                },
            }
        }
        if zeros >= 63 {
            return Err(String::from_str(field_name).concat(" UVLC value exceeds u64 range"));
        }
        let suffix: u64 = if zeros == 0 {
            0
        } else {
            match self.read_bits(zeros, field_name) {
                Ok(value) => value,
                Err(e) => {
                    return Err(e);
                },
            }
        };
        proof {
            lemma2_to64();
            lemma2_to64_rest();
            vstd::bits::lemma_u64_shl_is_mul(1, zeros as u64);
            lemma_pow2_strictly_increases(zeros as nat, 63);
            crate::bits::lemma_bits_value_bound(
                self.data(),
                self.pos() - zeros,
                zeros as nat,
            );
        }
        Ok((1u64 << (zeros as u64)) - 1 + suffix)
    }
}

} // verus!
