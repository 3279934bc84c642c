use vstd::prelude::*;
use vstd::arithmetic::power2::{
    pow2,
    lemma_pow2_pos,
    lemma_pow2_unfold,
    lemma_pow2_strictly_increases,
    lemma2_to64_rest,
};
use vstd::bits::{lemma_u64_shl_is_mul, lemma_u64_pow2_no_overflow};
use crate::err::Error;

verus! {

/// Bit `i` of `data`: bits are numbered from the least significant bit of
/// byte 0 upwards, then through byte 1, and so on.
pub open spec fn bit_at(data: Seq<u8>, i: int) -> bool {
    (data[i / 8] >> ((i % 8) as u8)) & 1u8 == 1u8
}

/// The unsigned number whose bit `k` is bit `start + k` of `data`, for `k < n`.
pub open spec fn unsigned_bits(data: Seq<u8>, start: int, n: nat) -> nat
    decreases n,
{
    if n == 0 {
        0
    } else {
        unsigned_bits(data, start, (n - 1) as nat) + if bit_at(data, start + n - 1) {
            pow2((n - 1) as nat)
        } else {
            0
        }
    }
}

/// The `n`-bit two's complement number held in bits `start .. start + n` of
/// `data`: the low `n - 1` bits give a magnitude, and the top bit, when set,
/// takes `2^(n-1)` away from it.
pub open spec fn signed_bits(data: Seq<u8>, start: int, n: nat) -> int {
    if n == 0 {
        0
    } else {
        unsigned_bits(data, start, (n - 1) as nat) - if bit_at(data, start + n - 1) {
            pow2((n - 1) as nat) as int
        } else {
            0
        }
    }
}

/// An unsigned field of `num_bits` bits: all bits set means that no reading is
/// available; any other raw code means `raw * scale + offset`.
pub open spec fn unsigned_field(raw: nat, num_bits: nat, scale: i64, offset: i64) -> Option<i64> {
    if raw == pow2(num_bits) - 1 {
        None
    } else {
        Some((raw * scale + offset) as i64)
    }
}

/// A signed field of `num_bits` bits: the largest positive code means that no
/// reading is available; any other raw code means `raw * scale`.
pub open spec fn signed_field(raw: int, num_bits: nat, scale: i64) -> Option<i64> {
    if raw == pow2((num_bits - 1) as nat) - 1 {
        None
    } else {
        Some((raw * scale) as i64)
    }
}

/// Every reading that an unsigned field of this shape can give fits in an `i64`.
pub open spec fn unsigned_field_fits(num_bits: nat, scale: i64, offset: i64) -> bool {
    i64::MIN <= (pow2(num_bits) - 2) * scale + offset <= i64::MAX
}

/// Every reading that a signed field of this shape can give fits in an `i64`.
pub open spec fn signed_field_fits(num_bits: nat, scale: i64) -> bool {
    &&& i64::MIN <= (pow2((num_bits - 1) as nat) - 2) * scale <= i64::MAX
    &&& i64::MIN <= -(pow2((num_bits - 1) as nat) as int) * scale <= i64::MAX
}

/// A number of `n` bits is below `2^n`.
pub proof fn lemma_unsigned_bits_bound(data: Seq<u8>, start: int, n: nat)
    ensures
        unsigned_bits(data, start, n) < pow2(n),
    decreases n,
{
    lemma_pow2_pos(n);
    if n > 0 {
        lemma_unsigned_bits_bound(data, start, (n - 1) as nat);
        lemma_pow2_unfold(n);
    }
}

/// A code other than the sentinel gives a reading of exactly `raw * scale + offset`.
pub proof fn lemma_unsigned_field_exact(raw: nat, num_bits: nat, scale: i64, offset: i64)
    requires
        raw < pow2(num_bits),
        unsigned_field_fits(num_bits, scale, offset),
    ensures
        raw == pow2(num_bits) - 1 <==> unsigned_field(raw, num_bits, scale, offset) is None,
        raw != pow2(num_bits) - 1 ==> {
            &&& i64::MIN <= raw * scale + offset <= i64::MAX
            &&& unsigned_field(raw, num_bits, scale, offset) == Some((raw * scale + offset) as i64)
            &&& unsigned_field(raw, num_bits, scale, offset)->0 == raw * scale + offset
        },
{
    if raw != pow2(num_bits) - 1 {
        let top = pow2(num_bits) - 2;
        assert(0 <= raw <= top);
        if scale >= 0 {
            assert(0 <= raw * scale <= top * scale) by (nonlinear_arith)
                requires
                    0 <= raw <= top,
                    scale >= 0,
            ;
        } else {
            assert(top * scale <= raw * scale <= 0) by (nonlinear_arith)
                requires
                    0 <= raw <= top,
                    scale < 0,
            ;
        }
    }
}

/// A code other than the sentinel gives a reading of exactly `raw * scale`.
pub proof fn lemma_signed_field_exact(raw: int, num_bits: nat, scale: i64)
    requires
        num_bits >= 1,
        -pow2((num_bits - 1) as nat) <= raw < pow2((num_bits - 1) as nat),
        signed_field_fits(num_bits, scale),
    ensures
        raw == pow2((num_bits - 1) as nat) - 1 <==> signed_field(raw, num_bits, scale) is None,
        raw != pow2((num_bits - 1) as nat) - 1 ==> {
            &&& i64::MIN <= raw * scale <= i64::MAX
            &&& signed_field(raw, num_bits, scale) == Some((raw * scale) as i64)
            &&& signed_field(raw, num_bits, scale)->0 == raw * scale
        },
{
    let half = pow2((num_bits - 1) as nat) as int;
    if raw != half - 1 {
        let top = half - 2;
        let bottom = -half;
        if scale >= 0 {
            assert(bottom * scale <= raw * scale <= top * scale) by (nonlinear_arith)
                requires
                    bottom <= raw <= top,
                    scale >= 0,
            ;
        } else {
            assert(top * scale <= raw * scale <= bottom * scale) by (nonlinear_arith)
                requires
                    bottom <= raw <= top,
                    scale < 0,
            ;
        }
    }
}

/// A two's complement number of `n` bits lies in `-2^(n-1) .. 2^(n-1)`.
pub proof fn lemma_signed_bits_bound(data: Seq<u8>, start: int, n: nat)
    requires
        n >= 1,
    ensures
        -pow2((n - 1) as nat) <= signed_bits(data, start, n) < pow2((n - 1) as nat),
{
    lemma_unsigned_bits_bound(data, start, (n - 1) as nat);
}

/// A reader of numbers of any bit width, packed one after another without
/// regard to byte boundaries, least significant bit first.
#[derive(Clone, Copy)]
pub struct BitReader<'a> {
    cursor: usize,
    data: &'a [u8],
}

impl<'a> BitReader<'a> {
    /// The bytes read from.
    pub closed spec fn bytes(&self) -> Seq<u8> {
        self.data@
    }

    /// The number of bits consumed so far.
    pub closed spec fn position(&self) -> nat {
        self.cursor as nat
    }

    /// The position lies within the data, and every bit position of the data
    /// can be counted in a `usize`.
    pub closed spec fn wf(&self) -> bool {
        &&& self.cursor <= self.data@.len() * 8
        &&& self.data@.len() * 8 <= usize::MAX
    }

    /// The number of bits left to read.
    pub open spec fn bits_left(&self) -> int {
        self.bytes().len() * 8 - self.position()
    }

    pub fn new(data: &'a [u8]) -> (r: Self)
        requires
            data@.len() * 8 <= usize::MAX,
        ensures
            r.wf(),
            r.bytes() == data@,
            r.position() == 0,
    {
        Self { cursor: 0, data }
    }

    fn remaining(&self) -> (r: usize)
        requires
            self.wf(),
        ensures
            r == self.bits_left(),
    {
        self.data.len() * 8 - self.cursor
    }

    /// Reads one bit; fails, and consumes nothing, at the end of the data.
    pub fn read_bit(&mut self) -> (r: Result<bool, Error>)
        requires
            old(self).wf(),
        ensures
            final(self).wf(),
            final(self).bytes() == old(self).bytes(),
            old(self).bits_left() >= 1 ==> {
                &&& r == Ok::<bool, Error>(bit_at(old(self).bytes(), old(self).position() as int))
                &&& final(self).position() == old(self).position() + 1
            },
            old(self).bits_left() < 1 ==> {
                &&& r == Err::<bool, Error>(Error::DataTooShort)
                &&& final(self).position() == old(self).position()
            },
    {
        if self.remaining() == 0 {
            return Err(Error::DataTooShort);
        }
        let byte = self.cursor / 8;
        let bit = (self.cursor % 8) as u8;
        let byte_val = self.data[byte];
        let is_bit_set = (byte_val >> bit) & 1u8 == 1u8;
        self.cursor = self.cursor + 1;
        Ok(is_bit_set)
    }

    /// Reads an unsigned number of `num_bits` bits; fails, and consumes
    /// nothing, where fewer bits are left.
    pub fn read_unsigned_int(&mut self, num_bits: usize) -> (r: Result<u64, Error>)
        requires
            old(self).wf(),
            num_bits <= 64,
        ensures
            final(self).wf(),
            final(self).bytes() == old(self).bytes(),
            old(self).bits_left() >= num_bits ==> {
                &&& r matches Ok(v) && v == unsigned_bits(
                    old(self).bytes(),
                    old(self).position() as int,
                    num_bits as nat,
                )
                &&& final(self).position() == old(self).position() + num_bits
            },
            old(self).bits_left() < num_bits ==> {
                &&& r == Err::<u64, Error>(Error::DataTooShort)
                &&& final(self).position() == old(self).position()
            },
    {
        if self.remaining() < num_bits {
            return Err(Error::DataTooShort);
        }
        let ghost bytes = self.bytes();
        let ghost start = self.position() as int;
        let mut value: u64 = 0;
        let mut position: usize = 0;
        while position < num_bits
            invariant
                self.wf(),
                self.bytes() == bytes,
                self.position() == start + position,
                start + num_bits <= bytes.len() * 8,
                position <= num_bits <= 64,
                value == unsigned_bits(bytes, start, position as nat),
            decreases num_bits - position,
        {
            proof {
                lemma_unsigned_bits_bound(bytes, start, position as nat);
            }
            let is_set = match self.read_bit() {
                Ok(b) => b,
                Err(e) => return Err(e),
            };
            if is_set {
                proof {
                    lemma_u64_pow2_no_overflow(position as nat);
                    lemma_u64_shl_is_mul(1, position as u64);
                    lemma2_to64_rest();
                    if position < 63 {
                        lemma_pow2_strictly_increases(position as nat, 63);
                    }
                }
                value = value + (1u64 << (position as u64));
            }
            position = position + 1;
        }
        Ok(value)
    }

    /// Reads a two's complement number of `num_bits` bits; fails, and consumes
    /// nothing, where fewer bits are left.
    pub fn read_signed_int(&mut self, num_bits: usize) -> (r: Result<i64, Error>)
        requires
            old(self).wf(),
            1 <= num_bits <= 64,
        ensures
            final(self).wf(),
            final(self).bytes() == old(self).bytes(),
            old(self).bits_left() >= num_bits ==> {
                &&& r matches Ok(v) && v == signed_bits(
                    old(self).bytes(),
                    old(self).position() as int,
                    num_bits as nat,
                )
                &&& final(self).position() == old(self).position() + num_bits
            },
            old(self).bits_left() < num_bits ==> {
                &&& r == Err::<i64, Error>(Error::DataTooShort)
                &&& final(self).position() == old(self).position()
            },
    {
        if self.remaining() < num_bits {
            return Err(Error::DataTooShort);
        }
        let ghost bytes = self.bytes();
        let ghost start = self.position() as int;
        let magnitude = match self.read_unsigned_int(num_bits - 1) {
            Ok(v) => v,
            Err(e) => return Err(e),
        };
        let is_negative = match self.read_bit() {
            Ok(b) => b,
            Err(e) => return Err(e),
        };
        proof {
            let m = (num_bits - 1) as nat;
            lemma_unsigned_bits_bound(bytes, start, m);
            lemma2_to64_rest();
            if m < 63 {
                lemma_pow2_strictly_increases(m, 63);
            }
            assert(pow2(m) <= 0x8000_0000_0000_0000);
        }
        if is_negative {
            proof {
                lemma_u64_pow2_no_overflow((num_bits - 1) as nat);
                lemma_u64_shl_is_mul(1, (num_bits - 1) as u64);
            }
            let half = 1u64 << ((num_bits - 1) as u64);
            Ok((magnitude as i64) - ((half - 1) as i64) - 1)
        } else {
            Ok(magnitude as i64)
        }
    }

    /// Consumes `num_bits` bits without reading them; fails, and consumes
    /// nothing, where fewer bits are left.
    pub fn skip(&mut self, num_bits: usize) -> (r: Result<(), Error>)
        requires
            old(self).wf(),
        ensures
            final(self).wf(),
            final(self).bytes() == old(self).bytes(),
            old(self).bits_left() >= num_bits ==> {
                &&& r is Ok
                &&& final(self).position() == old(self).position() + num_bits
            },
            old(self).bits_left() < num_bits ==> {
                &&& r == Err::<(), Error>(Error::DataTooShort)
                &&& final(self).position() == old(self).position()
            },
    {
        if self.remaining() < num_bits {
            return Err(Error::DataTooShort);
        }
        self.cursor = self.cursor + num_bits;
        Ok(())
    }
    /// Reads an unsigned field of `num_bits` bits: `None` where all its bits
    /// are set, else the reading `raw * scale + offset`.
    pub fn read_unsigned_field(&mut self, num_bits: usize, scale: i64, offset: i64) -> (r: Result<Option<i64>, Error>)
        requires
            old(self).wf(),
            1 <= num_bits <= 64,
            unsigned_field_fits(num_bits as nat, scale, offset),
        ensures
            final(self).wf(),
            final(self).bytes() == old(self).bytes(),
            old(self).bits_left() >= num_bits ==> {
                &&& r == Ok::<Option<i64>, Error>(
                    unsigned_field(
                        unsigned_bits(old(self).bytes(), old(self).position() as int, num_bits as nat),
                        num_bits as nat,
                        scale,
                        offset,
                    ),
                )
                &&& final(self).position() == old(self).position() + num_bits
            },
            old(self).bits_left() < num_bits ==> {
                &&& r == Err::<Option<i64>, Error>(Error::DataTooShort)
                &&& final(self).position() == old(self).position()
            },
    {
        let ghost bytes = self.bytes();
        let ghost start = self.position() as int;
        let raw = match self.read_unsigned_int(num_bits) {
            Ok(v) => v,
            Err(e) => return Err(e),
        };
        proof {
            lemma_unsigned_bits_bound(bytes, start, num_bits as nat);
            lemma2_to64_rest();
        }
        let all_ones: u64 = if num_bits == 64 {
            u64::MAX
        } else {
            proof {
                lemma_u64_pow2_no_overflow(num_bits as nat);
                lemma_u64_shl_is_mul(1, num_bits as u64);
            }
            (1u64 << (num_bits as u64)) - 1
        };
        if raw == all_ones {
            Ok(None)
        } else {
            proof {
                lemma_unsigned_field_exact(raw as nat, num_bits as nat, scale, offset);
            }
            let reading = (raw as i128) * (scale as i128) + (offset as i128);
            Ok(Some(reading as i64))
        }
    }

    /// Reads a two's complement field of `num_bits` bits: `None` where it
    /// holds the largest positive code, else the reading `raw * scale`.
    pub fn read_signed_field(&mut self, num_bits: usize, scale: i64) -> (r: Result<Option<i64>, Error>)
        requires
            old(self).wf(),
            1 <= num_bits <= 64,
            signed_field_fits(num_bits as nat, scale),
        ensures
            final(self).wf(),
            final(self).bytes() == old(self).bytes(),
            old(self).bits_left() >= num_bits ==> {
                &&& r == Ok::<Option<i64>, Error>(
                    signed_field(
                        signed_bits(old(self).bytes(), old(self).position() as int, num_bits as nat),
                        num_bits as nat,
                        scale,
                    ),
                )
                &&& final(self).position() == old(self).position() + num_bits
            },
            old(self).bits_left() < num_bits ==> {
                &&& r == Err::<Option<i64>, Error>(Error::DataTooShort)
                &&& final(self).position() == old(self).position()
            },
    {
        let ghost bytes = self.bytes();
        let ghost start = self.position() as int;
        let raw = match self.read_signed_int(num_bits) {
            Ok(v) => v,
            Err(e) => return Err(e),
        };
        proof {
            lemma_signed_bits_bound(bytes, start, num_bits as nat);
            lemma_u64_pow2_no_overflow((num_bits - 1) as nat);
            lemma_u64_shl_is_mul(1, (num_bits - 1) as u64);
            lemma2_to64_rest();
            if num_bits - 1 < 63 {
                lemma_pow2_strictly_increases((num_bits - 1) as nat, 63);
            }
        }
        let largest = ((1u64 << ((num_bits - 1) as u64)) - 1) as i64;
        if raw == largest {
            Ok(None)
        } else {
            proof {
                lemma_signed_field_exact(raw as int, num_bits as nat, scale);
            }
            let reading = (raw as i128) * (scale as i128);
            Ok(Some(reading as i64))
        }
    }
}

} // verus!
