//! Operations on words: fields and single bits, addition with carry, the
//! shifter, sign extension, byte reversal and the condition table.

use super::apsr::{bit_of, bit_value, Apsr};
use crate::memory::{byte_of, lemma_bytes_of_word, lemma_word_of_bytes, u32_of_bytes};
use core::ops::Range;
use vstd::arithmetic::div_mod::lemma_mod_decreases;
use vstd::prelude::*;

verus! {

/// The value of a word read as a two's complement number.
pub open spec fn signed(x: u32) -> int {
    if x < 0x8000_0000 {
        x as int
    } else {
        x as int - 0x1_0000_0000
    }
}

/// Sum, carry out and signed overflow of `x + y + carry_in`.
pub open spec fn add_with_carry_spec(x: u32, y: u32, carry_in: bool) -> (u32, bool, bool) {
    let c: int = if carry_in {
        1
    } else {
        0
    };
    let unsigned_sum: int = x as int + y as int + c;
    let signed_sum: int = signed(x) + signed(y) + c;
    (
        (unsigned_sum % 0x1_0000_0000) as u32,
        unsigned_sum >= 0x1_0000_0000,
        signed_sum < -0x8000_0000 || signed_sum > 0x7fff_ffff,
    )
}

/// Adds two words and a carry: the sum modulo 2^32, the carry out of bit 31,
/// and whether the sum of the operands read as signed numbers is out of range.
pub fn add_with_carry(x: u32, y: u32, carry_in: bool) -> (r: (u32, bool, bool))
    ensures
        r == add_with_carry_spec(x, y, carry_in),
{
    let c: u64 = if carry_in {
        1
    } else {
        0
    };
    let wide: u64 = x as u64 + y as u64 + c;
    let carry_out: bool = wide > 0xffff_ffff;
    let sum: u32 = if carry_out {
        (wide - 0x1_0000_0000) as u32
    } else {
        wide as u32
    };
    let x_negative: bool = x >= 0x8000_0000;
    let y_negative: bool = y >= 0x8000_0000;
    let sum_negative: bool = sum >= 0x8000_0000;
    let overflow: bool = x_negative == y_negative && sum_negative != x_negative;
    (sum, carry_out, overflow)
}

/// One end of a range of bit positions.
#[derive(Debug, Clone, Copy, PartialEq, Eq, Structural)]
pub enum Bound {
    Included(usize),
    Excluded(usize),
    Unbounded,
}

/// The first position of a range and the position after its last.
pub open spec fn unwind_bounds_spec(size: usize, start: Bound, end: Bound) -> (int, int) {
    (
        match start {
            Bound::Included(s) => s as int,
            Bound::Excluded(s) => s + 1,
            Bound::Unbounded => 0,
        },
        match end {
            Bound::Included(e) => e + 1,
            Bound::Excluded(e) => e as int,
            Bound::Unbounded => size as int,
        },
    )
}

/// The half-open range `(first, past)` of bit positions that two bounds
/// delimit in a number of `size` bits.
pub fn unwind_bounds(size: usize, start: Bound, end: Bound) -> (r: (usize, usize))
    requires
        start matches Bound::Excluded(s) ==> s < usize::MAX,
        end matches Bound::Included(e) ==> e < usize::MAX,
    ensures
        (r.0 as int, r.1 as int) == unwind_bounds_spec(size, start, end),
{
    let first: usize = match start {
        Bound::Included(s) => s,
        Bound::Excluded(s) => s + 1,
        Bound::Unbounded => 0,
    };
    let past: usize = match end {
        Bound::Included(e) => e + 1,
        Bound::Excluded(e) => e,
        Bound::Unbounded => size,
    };
    (first, past)
}

/// The word whose low `len` bits are set, and no others.
pub open spec fn low_mask(len: int) -> u32 {
    if len >= 32 {
        0xffff_ffff
    } else {
        !(0xffff_ffffu32 << (len as u32))
    }
}

/// The word whose low `len` bits are set, and no others.
pub fn low_mask_of(len: usize) -> (r: u32)
    ensures
        r == low_mask(len as int),
{
    if len >= 32 {
        0xffff_ffff
    } else {
        !(0xffff_ffffu32 << (len as u32))
    }
}

/// Bits `start .. end` of `value`, moved down to bit 0.
pub open spec fn get_bits_spec(value: u32, start: int, end: int) -> u32 {
    if start >= 32 {
        0
    } else {
        (value >> (start as u32)) & low_mask(end - start)
    }
}

/// Bit `j` of the field `start .. end` of a word is bit `start + j` of the
/// word, and the field has no bit beyond its length.
pub proof fn lemma_get_bits(value: u32, start: int, end: int, j: int)
    requires
        0 <= start <= end <= 32,
        0 <= j < 32,
    ensures
        get_bit_spec(get_bits_spec(value, start, end), j) == (j < end - start && get_bit_spec(
            value,
            start + j,
        )),
{
    if start < 32 {
        let s: u32 = start as u32;
        let len: u32 = (end - start) as u32;
        let k: u32 = j as u32;
        if end - start >= 32 {
            assert(((value >> 0u32) & 0xffff_ffffu32) == value) by (bit_vector);
        } else {
            assert((((value >> s) & !(0xffff_ffffu32 << len)) >> k) & 1 == 1 <==> (k < len && (value
                >> ((s + k) as u32)) & 1 == 1)) by (bit_vector)
                requires
                    s < 32,
                    len < 32,
                    s + len <= 32,
                    k < 32,
            ;
        }
    } else {
        let k: u32 = j as u32;
        assert((0u32 >> k) & 1 == 0) by (bit_vector);
    }
}

/// The bits of `value` in `range`, moved down to bit 0.
pub fn get_bits(value: u32, range: Range<usize>) -> (r: u32)
    requires
        range.start <= range.end <= 32,
    ensures
        r == get_bits_spec(value, range.start as int, range.end as int),
        forall|j: int|
            0 <= j < 32 ==> #[trigger] get_bit_spec(r, j) == (j < range.end - range.start
                && get_bit_spec(value, range.start + j)),
{
    proof {
        assert forall|j: int| 0 <= j < 32 implies #[trigger] get_bit_spec(
            get_bits_spec(value, range.start as int, range.end as int),
            j,
        ) == (j < range.end - range.start && get_bit_spec(value, range.start + j)) by {
            lemma_get_bits(value, range.start as int, range.end as int, j);
        }
    }
    if range.start >= 32 {
        0
    } else {
        (value >> (range.start as u32)) & low_mask_of(range.end - range.start)
    }
}

/// Bit `bit` of `value`, counted from bit 0.
pub open spec fn get_bit_spec(value: u32, bit: int) -> bool {
    (value >> (bit as u32)) & 1 == 1
}

/// Whether bit `bit` of `value` is set.
pub fn get_bit(value: u32, bit: usize) -> (r: bool)
    requires
        bit < 32,
    ensures
        r == get_bit_spec(value, bit as int),
{
    (value >> (bit as u32)) & 1 == 1
}

/// The bits of the bitwise operations are the operations on the bits.
pub proof fn lemma_bit_operations(a: u32, b: u32, j: int)
    requires
        0 <= j < 32,
    ensures
        get_bit_spec(a | b, j) == (get_bit_spec(a, j) || get_bit_spec(b, j)),
        get_bit_spec(a & b, j) == (get_bit_spec(a, j) && get_bit_spec(b, j)),
        get_bit_spec(a ^ b, j) == (get_bit_spec(a, j) != get_bit_spec(b, j)),
        get_bit_spec(!a, j) == !get_bit_spec(a, j),
{
    let k: u32 = j as u32;
    assert({
        &&& (((a | b) >> k) & 1 == 1 <==> ((a >> k) & 1 == 1 || (b >> k) & 1 == 1))
        &&& (((a & b) >> k) & 1 == 1 <==> ((a >> k) & 1 == 1 && (b >> k) & 1 == 1))
        &&& (((a ^ b) >> k) & 1 == 1 <==> ((a >> k) & 1 == 1) != ((b >> k) & 1 == 1))
        &&& (((!a) >> k) & 1 == 1 <==> !((a >> k) & 1 == 1))
    }) by (bit_vector)
        requires
            k < 32,
    ;
}

/// The mask of the low `len` bits has bit `j` set exactly when `j < len`.
pub proof fn lemma_low_mask(len: int, j: int)
    requires
        0 <= len,
        0 <= j < 32,
    ensures
        get_bit_spec(low_mask(len), j) == (j < len),
{
    let k: u32 = j as u32;
    if len >= 32 {
        assert((0xffff_ffffu32 >> k) & 1 == 1) by (bit_vector)
            requires
                k < 32,
        ;
    } else {
        let n: u32 = len as u32;
        assert(((!(0xffff_ffffu32 << n)) >> k) & 1 == 1 <==> k < n) by (bit_vector)
            requires
                n < 32,
                k < 32,
        ;
    }
}

/// `value` with bit `bit_index` set to `bit`.
pub open spec fn set_bit_spec(value: u32, bit_index: int, bit: bool) -> u32 {
    if bit {
        value | (1u32 << (bit_index as u32))
    } else {
        value & !(1u32 << (bit_index as u32))
    }
}

/// Sets or clears bit `bit_index` of `value`.
pub fn set_bit(value: &mut u32, bit_index: usize, bit: bool)
    requires
        bit_index < 32,
    ensures
        *final(value) == set_bit_spec(*old(value), bit_index as int, bit),
{
    if bit {
        *value = *value | (1u32 << (bit_index as u32));
    } else {
        *value = *value & !(1u32 << (bit_index as u32));
    }
}

/// Writing one bit changes that bit and no other.
pub proof fn lemma_set_bit_get_bit(value: u32, i: int, bit: bool, j: int)
    requires
        0 <= i < 32,
        0 <= j < 32,
    ensures
        get_bit_spec(set_bit_spec(value, i, bit), j) == (if i == j {
            bit
        } else {
            get_bit_spec(value, j)
        }),
{
    let iu: u32 = i as u32;
    let ju: u32 = j as u32;
    assert(((value | (1u32 << iu)) >> ju) & 1 == 1 <==> (iu == ju || (value >> ju) & 1 == 1))
        by (bit_vector)
        requires
            iu < 32,
            ju < 32,
    ;
    assert(((value & !(1u32 << iu)) >> ju) & 1 == 1 <==> (iu != ju && (value >> ju) & 1 == 1))
        by (bit_vector)
        requires
            iu < 32,
            ju < 32,
    ;
}

/// Copies bits of `bits` into the positions of `range`: position `i` takes
/// bit `(i - range.start) % bits_len` of `bits`. The other positions keep
/// what they held.
pub fn set_bits(value: &mut u32, range: Range<usize>, bits: u32, bits_len: usize)
    requires
        range.start <= range.end <= 32,
        0 < bits_len,
    ensures
        forall|j: int|
            0 <= j < 32 ==> #[trigger] get_bit_spec(*final(value), j) == (if range.start <= j
                < range.end {
                get_bit_spec(bits, (j - range.start) % (bits_len as int))
            } else {
                get_bit_spec(*old(value), j)
            }),
{
    let start: usize = range.start;
    let end: usize = range.end;
    let mut i: usize = start;
    while i < end
        invariant
            start <= i <= end <= 32,
            0 < bits_len,
            forall|j: int|
                0 <= j < 32 ==> #[trigger] get_bit_spec(*value, j) == (if start <= j < i {
                    get_bit_spec(bits, (j - start) % (bits_len as int))
                } else {
                    get_bit_spec(*old(value), j)
                }),
        decreases end - i,
    {
        let ghost before: u32 = *value;
        proof {
            lemma_mod_decreases((i - start) as nat, bits_len as nat);
        }
        let source: usize = (i - start) % bits_len;
        let bit: bool = get_bit(bits, source);
        set_bit(value, i, bit);
        proof {
            assert forall|j: int| 0 <= j < 32 implies #[trigger] get_bit_spec(*value, j) == (if start
                <= j < i + 1 {
                get_bit_spec(bits, (j - start) % (bits_len as int))
            } else {
                get_bit_spec(*old(value), j)
            }) by {
                lemma_set_bit_get_bit(before, i as int, bit, j);
            }
        }
        i = i + 1;
    }
}

/// Whether a word is zero.
pub fn is_zero_bit(x: u32) -> (r: bool)
    ensures
        r == (x == 0),
{
    x == 0
}

/// The kinds of shift that the shifter performs.
#[derive(Debug, Clone, Copy, PartialEq, Eq, Structural)]
pub enum SRType {
    Lsl,
    Lsr,
    Asr,
    Rrx,
    Ror,
}

/// Logical shift left by `amount >= 1`: the result, and the last bit shifted
/// out.
pub open spec fn lsl_c_spec(value: u32, amount: int) -> (u32, bool) {
    (
        if amount >= 32 {
            0
        } else {
            value << (amount as u32)
        },
        if amount > 32 {
            false
        } else {
            get_bit_spec(value, 32 - amount)
        },
    )
}

/// Logical shift left with carry.
pub fn lsl_c(value: u32, amount: usize) -> (r: (u32, bool))
    requires
        amount > 0,
    ensures
        r == lsl_c_spec(value, amount as int),
{
    let result: u32 = if amount >= 32 {
        0
    } else {
        value << (amount as u32)
    };
    let carry_out: bool = if amount > 32 {
        false
    } else {
        get_bit(value, 32 - amount)
    };
    (result, carry_out)
}

/// Logical shift right by `amount >= 1`: the result, and the last bit shifted
/// out.
pub open spec fn lsr_c_spec(value: u32, amount: int) -> (u32, bool) {
    (
        if amount >= 32 {
            0
        } else {
            value >> (amount as u32)
        },
        if amount > 32 {
            false
        } else {
            get_bit_spec(value, amount - 1)
        },
    )
}

/// Logical shift right with carry.
pub fn lsr_c(value: u32, amount: usize) -> (r: (u32, bool))
    requires
        amount > 0,
    ensures
        r == lsr_c_spec(value, amount as int),
{
    let result: u32 = if amount >= 32 {
        0
    } else {
        value >> (amount as u32)
    };
    let carry_out: bool = if amount > 32 {
        false
    } else {
        get_bit(value, amount - 1)
    };
    (result, carry_out)
}

/// Arithmetic shift right by `shift >= 1`: bit 31 is copied into the places
/// that the shift vacates. From 32 places on, every bit of the result and the
/// carry are copies of bit 31.
pub open spec fn asr_c_spec(value: u32, shift: int) -> (u32, bool) {
    let negative: bool = get_bit_spec(value, 31);
    if shift >= 32 {
        (
            if negative {
                0xffff_ffff
            } else {
                0
            },
            negative,
        )
    } else {
        (
            (value >> (shift as u32)) | (if negative {
                !(0xffff_ffffu32 >> (shift as u32))
            } else {
                0
            }),
            get_bit_spec(value, shift - 1),
        )
    }
}

/// Arithmetic shift right with carry.
pub fn asr_c(value: u32, shift: usize) -> (r: (u32, bool))
    requires
        shift > 0,
    ensures
        r == asr_c_spec(value, shift as int),
{
    let negative: bool = get_bit(value, 31);
    if shift >= 32 {
        let result: u32 = if negative {
            0xffff_ffff
        } else {
            0
        };
        (result, negative)
    } else {
        let fill: u32 = if negative {
            !(0xffff_ffffu32 >> (shift as u32))
        } else {
            0
        };
        ((value >> (shift as u32)) | fill, get_bit(value, shift - 1))
    }
}

/// Rotation right by `amount >= 1`, taken modulo 32; the carry is bit 31 of
/// the result.
pub open spec fn ror_c_spec(value: u32, amount: int) -> (u32, bool) {
    let places: int = amount % 32;
    let result: u32 = if places == 0 {
        value
    } else {
        (value >> (places as u32)) | (value << ((32 - places) as u32))
    };
    (result, get_bit_spec(result, 31))
}

/// Rotation right with carry.
pub fn ror_c(value: u32, amount: usize) -> (r: (u32, bool))
    requires
        amount > 0,
    ensures
        r == ror_c_spec(value, amount as int),
{
    let places: usize = amount % 32;
    let result: u32 = if places == 0 {
        value
    } else {
        (value >> (places as u32)) | (value << ((32 - places) as u32))
    };
    (result, get_bit(result, 31))
}

/// Rotation right by one place through the carry.
pub open spec fn rrx_c_spec(value: u32, carry_in: bool) -> (u32, bool) {
    ((bit_of(carry_in) << 31) | (value >> 1), get_bit_spec(value, 0))
}

/// Rotation right by one place through the carry.
pub fn rrx_c(value: u32, carry_in: bool) -> (r: (u32, bool))
    ensures
        r == rrx_c_spec(value, carry_in),
{
    ((bit_value(carry_in) << 31) | (value >> 1), get_bit(value, 0))
}

/// What the shifter yields: a shift by nothing hands back the value and the
/// carry it was given; RRX always moves one place.
pub open spec fn shift_c_spec(value: u32, sr_type: SRType, amount: u16, carry_in: bool) -> (
    u32,
    bool,
) {
    if amount == 0 {
        (value, carry_in)
    } else {
        match sr_type {
            SRType::Lsl => lsl_c_spec(value, amount as int),
            SRType::Lsr => lsr_c_spec(value, amount as int),
            SRType::Asr => asr_c_spec(value, amount as int),
            SRType::Rrx => rrx_c_spec(value, carry_in),
            SRType::Ror => ror_c_spec(value, amount as int),
        }
    }
}

/// The shifter: a result and a carry out.
pub fn shift_c(value: u32, sr_type: SRType, amount: u16, carry_in: bool) -> (r: (u32, bool))
    requires
        sr_type == SRType::Rrx ==> amount == 1,
    ensures
        r == shift_c_spec(value, sr_type, amount, carry_in),
{
    if amount == 0 {
        return (value, carry_in);
    }
    let amount: usize = amount as usize;
    match sr_type {
        SRType::Lsl => lsl_c(value, amount),
        SRType::Lsr => lsr_c(value, amount),
        SRType::Asr => asr_c(value, amount),
        SRType::Rrx => rrx_c(value, carry_in),
        SRType::Ror => ror_c(value, amount),
    }
}

/// A left shift by `amount >= 1` places moves bit `j - amount` to bit `j`
/// and fills with zeros.
pub proof fn lemma_lsl_bits(value: u32, amount: int, j: int)
    requires
        1 <= amount,
        0 <= j < 32,
    ensures
        get_bit_spec(lsl_c_spec(value, amount).0, j) == (j >= amount && get_bit_spec(
            value,
            j - amount,
        )),
{
    let k: u32 = j as u32;
    if amount < 32 {
        let n: u32 = amount as u32;
        assert({
            &&& (k >= n ==> (((value << n) >> k) & 1 == 1 <==> (value >> ((k - n) as u32)) & 1 == 1))
            &&& (k < n ==> ((value << n) >> k) & 1 == 0)
        }) by (bit_vector)
            requires
                1 <= n < 32,
                k < 32,
        ;
    } else {
        assert((0u32 >> k) & 1 == 0) by (bit_vector);
    }
}

/// A logical right shift by `amount >= 1` places moves bit `j + amount` to
/// bit `j` and fills with zeros.
pub proof fn lemma_lsr_bits(value: u32, amount: int, j: int)
    requires
        1 <= amount,
        0 <= j < 32,
    ensures
        get_bit_spec(lsr_c_spec(value, amount).0, j) == (j + amount < 32 && get_bit_spec(
            value,
            j + amount,
        )),
{
    let k: u32 = j as u32;
    if amount < 32 {
        let n: u32 = amount as u32;
        assert({
            &&& (k + n < 32 ==> (((value >> n) >> k) & 1 == 1 <==> (value >> ((k + n) as u32)) & 1
                == 1))
            &&& (k + n >= 32 ==> ((value >> n) >> k) & 1 == 0)
        }) by (bit_vector)
            requires
                1 <= n < 32,
                k < 32,
        ;
    } else {
        assert((0u32 >> k) & 1 == 0) by (bit_vector);
    }
}

/// An arithmetic right shift by `amount >= 1` places moves bit `j + amount`
/// to bit `j` and fills with bit 31.
pub proof fn lemma_asr_bits(value: u32, amount: int, j: int)
    requires
        1 <= amount,
        0 <= j < 32,
    ensures
        get_bit_spec(asr_c_spec(value, amount).0, j) == get_bit_spec(
            value,
            if j + amount < 32 {
                j + amount
            } else {
                31
            },
        ),
{
    let k: u32 = j as u32;
    let negative: bool = get_bit_spec(value, 31);
    if amount < 32 {
        let n: u32 = amount as u32;
        let fill: u32 = if negative {
            !(0xffff_ffffu32 >> n)
        } else {
            0
        };
        assert({
            &&& (k + n < 32 ==> (((value >> n) >> k) & 1 == 1 <==> (value >> ((k + n) as u32)) & 1
                == 1))
            &&& (k + n >= 32 ==> ((value >> n) >> k) & 1 == 0)
            &&& (((!(0xffff_ffffu32 >> n)) >> k) & 1 == 1 <==> k + n >= 32)
            &&& (0u32 >> k) & 1 == 0
        }) by (bit_vector)
            requires
                1 <= n < 32,
                k < 32,
        ;
        lemma_bit_operations(value >> n, fill, j);
    } else {
        assert((0u32 >> k) & 1 == 0 && (0xffff_ffffu32 >> k) & 1 == 1) by (bit_vector)
            requires
                k < 32,
        ;
    }
}

/// A rotation right by `amount >= 1` places moves bit `j + amount`, taken
/// modulo 32, to bit `j`.
pub proof fn lemma_ror_bits(value: u32, amount: int, j: int)
    requires
        1 <= amount,
        0 <= j < 32,
    ensures
        get_bit_spec(ror_c_spec(value, amount).0, j) == get_bit_spec(value, (j + amount) % 32),
{
    let k: u32 = j as u32;
    let places: int = amount % 32;
    if places != 0 {
        let m: u32 = places as u32;
        let back: u32 = (32 - places) as u32;
        let source: u32 = ((j + amount) % 32) as u32;
        assert(source == (if k + m < 32 {
            k + m
        } else {
            k + m - 32
        }));
        assert({
            &&& (k + m < 32 ==> (((value >> m) >> k) & 1 == 1 <==> (value >> ((k + m) as u32)) & 1
                == 1))
            &&& (k + m < 32 ==> ((value << back) >> k) & 1 == 0)
            &&& (k + m >= 32 ==> ((value >> m) >> k) & 1 == 0)
            &&& (k + m >= 32 ==> (((value << back) >> k) & 1 == 1 <==> (value >> ((k + m - 32) as u32))
                & 1 == 1))
        }) by (bit_vector)
            requires
                1 <= m < 32,
                back == 32 - m,
                k < 32,
        ;
        lemma_bit_operations(value >> m, value << back, j);
    }
}

/// The shift that a two-bit type code and a five-bit immediate stand for: an
/// immediate of zero means 32 places for LSR and ASR, and RRX for ROR.
pub open spec fn decode_imm_shift_spec(imm_type: u8, imm5: u16) -> (SRType, u16) {
    if imm_type == 0 {
        (SRType::Lsl, imm5)
    } else if imm_type == 1 {
        (
            SRType::Lsr,
            if imm5 == 0 {
                32
            } else {
                imm5
            },
        )
    } else if imm_type == 2 {
        (
            SRType::Asr,
            if imm5 == 0 {
                32
            } else {
                imm5
            },
        )
    } else if imm5 == 0 {
        (SRType::Rrx, 1)
    } else {
        (SRType::Ror, imm5)
    }
}

/// Decodes the shift of an instruction with an immediate shift amount.
pub fn decode_imm_shift(imm_type: u8, imm5: u16) -> (r: (SRType, u16))
    requires
        imm_type < 4,
    ensures
        r == decode_imm_shift_spec(imm_type, imm5),
        r.0 == SRType::Rrx ==> r.1 == 1,
{
    if imm_type == 0 {
        (SRType::Lsl, imm5)
    } else if imm_type == 1 {
        let amount: u16 = if imm5 == 0 {
            32
        } else {
            imm5
        };
        (SRType::Lsr, amount)
    } else if imm_type == 2 {
        let amount: u16 = if imm5 == 0 {
            32
        } else {
            imm5
        };
        (SRType::Asr, amount)
    } else if imm5 == 0 {
        (SRType::Rrx, 1)
    } else {
        (SRType::Ror, imm5)
    }
}

/// `value` with the bit at `topbit` copied into the positions
/// `topbit + 1 .. len`.
pub open spec fn sign_extend_spec(value: u32, topbit: int, len: int) -> u32 {
    let field: u32 = low_mask(len) & !low_mask(topbit + 1);
    if get_bit_spec(value, topbit) {
        value | field
    } else {
        value & !field
    }
}

/// Sign extension copies bit `topbit` into the bits above it and below
/// `len`, and leaves every other bit as it was.
pub proof fn lemma_sign_extend(value: u32, topbit: int, len: int, j: int)
    requires
        0 <= topbit < 32,
        0 <= len,
        0 <= j < 32,
    ensures
        get_bit_spec(sign_extend_spec(value, topbit, len), j) == (if topbit < j < len {
            get_bit_spec(value, topbit)
        } else {
            get_bit_spec(value, j)
        }),
{
    let field: u32 = low_mask(len) & !low_mask(topbit + 1);
    lemma_low_mask(len, j);
    lemma_low_mask(topbit + 1, j);
    lemma_bit_operations(low_mask(topbit + 1), 0, j);
    lemma_bit_operations(low_mask(len), !low_mask(topbit + 1), j);
    lemma_bit_operations(field, 0, j);
    lemma_bit_operations(value, field, j);
    lemma_bit_operations(value, !field, j);
}

/// Extends the sign at bit `topbit` up to a width of `len` bits.
pub fn sign_extend(value: u32, topbit: usize, len: usize) -> (r: u32)
    requires
        topbit < 32,
    ensures
        r == sign_extend_spec(value, topbit as int, len as int),
        forall|j: int|
            0 <= j < 32 ==> #[trigger] get_bit_spec(r, j) == (if topbit < j < len {
                get_bit_spec(value, topbit as int)
            } else {
                get_bit_spec(value, j)
            }),
{
    proof {
        assert forall|j: int| 0 <= j < 32 implies #[trigger] get_bit_spec(
            sign_extend_spec(value, topbit as int, len as int),
            j,
        ) == (if topbit < j < len {
            get_bit_spec(value, topbit as int)
        } else {
            get_bit_spec(value, j)
        }) by {
            lemma_sign_extend(value, topbit as int, len as int, j);
        }
    }
    let field: u32 = low_mask_of(len) & !low_mask_of(topbit + 1);
    if get_bit(value, topbit) {
        value | field
    } else {
        value & !field
    }
}

/// No IT block is ever entered.
pub fn in_it_block() -> (r: bool)
    ensures
        !r,
{
    false
}

/// No IT block is ever entered.
pub fn last_in_it_block() -> (r: bool)
    ensures
        !r,
{
    false
}

/// The standard condition table over the low four bits of `cond`: bits 3:1
/// pick the test, bit 0 inverts it, and 0b1111 always passes.
pub open spec fn condition_passed_spec(apsr: Apsr, cond: u16) -> bool {
    let cond: int = cond as int % 16;
    let base: int = cond / 2;
    let result: bool = if base == 0 {
        apsr.z
    } else if base == 1 {
        apsr.c
    } else if base == 2 {
        apsr.n
    } else if base == 3 {
        apsr.v
    } else if base == 4 {
        apsr.c && !apsr.z
    } else if base == 5 {
        apsr.n == apsr.v
    } else if base == 6 {
        apsr.n == apsr.v && !apsr.z
    } else {
        true
    };
    if cond % 2 == 1 && cond != 15 {
        !result
    } else {
        result
    }
}

/// Whether the flags meet a condition code.
pub fn condition_passed(apsr: &Apsr, cond: u16) -> (r: bool)
    ensures
        r == condition_passed_spec(*apsr, cond),
{
    let cond: u16 = cond % 16;
    let result: bool = match cond / 2 {
        0 => apsr.z(),
        1 => apsr.c(),
        2 => apsr.n(),
        3 => apsr.v(),
        4 => apsr.c() && !apsr.z(),
        5 => apsr.n() == apsr.v(),
        6 => apsr.n() == apsr.v() && !apsr.z(),
        _ => true,
    };
    if cond % 2 == 1 && cond != 15 {
        !result
    } else {
        result
    }
}

/// Bit 0 of a word.
pub fn get_lsb(n: u32) -> (r: u32)
    ensures
        r == n & 1,
{
    n & 1
}

/// The width of a word in bits.
pub fn get_size_of_number(_n: u32) -> (r: usize)
    ensures
        r == 32,
{
    32
}

/// Whether bit 31 of a word is set.
pub fn get_msb(n: u32) -> (r: bool)
    ensures
        r == get_bit_spec(n, 31),
{
    get_bit(n, 31)
}

/// Whether every bit of `value` in `start .. end` is set.
pub open spec fn is_ones_spec(value: u32, start: int, end: int) -> bool {
    get_bits_spec(value, start, end) == low_mask(end - start)
}

/// Whether every bit of `value` in `range` is set.
pub fn is_ones(value: u32, range: Range<usize>) -> (r: bool)
    requires
        range.start <= range.end <= 32,
    ensures
        r == is_ones_spec(value, range.start as int, range.end as int),
        r == (forall|j: int| range.start <= j < range.end ==> #[trigger] get_bit_spec(value, j)),
{
    let len: usize = range.end - range.start;
    let field: u32 = get_bits(value, Range { start: range.start, end: range.end });
    let mask: u32 = low_mask_of(len);
    proof {
        lemma_is_ones(value, range.start as int, range.end as int);
    }
    field == mask
}

/// Two words with the same bits are the same word.
pub proof fn lemma_same_bits(a: u32, b: u32)
    requires
        forall|j: int| 0 <= j < 32 ==> #[trigger] get_bit_spec(a, j) == get_bit_spec(b, j),
    ensures
        a == b,
{
    assert(get_bit_spec(a, 0) == get_bit_spec(b, 0));
    assert(get_bit_spec(a, 1) == get_bit_spec(b, 1));
    assert(get_bit_spec(a, 2) == get_bit_spec(b, 2));
    assert(get_bit_spec(a, 3) == get_bit_spec(b, 3));
    assert(get_bit_spec(a, 4) == get_bit_spec(b, 4));
    assert(get_bit_spec(a, 5) == get_bit_spec(b, 5));
    assert(get_bit_spec(a, 6) == get_bit_spec(b, 6));
    assert(get_bit_spec(a, 7) == get_bit_spec(b, 7));
    assert(get_bit_spec(a, 8) == get_bit_spec(b, 8));
    assert(get_bit_spec(a, 9) == get_bit_spec(b, 9));
    assert(get_bit_spec(a, 10) == get_bit_spec(b, 10));
    assert(get_bit_spec(a, 11) == get_bit_spec(b, 11));
    assert(get_bit_spec(a, 12) == get_bit_spec(b, 12));
    assert(get_bit_spec(a, 13) == get_bit_spec(b, 13));
    assert(get_bit_spec(a, 14) == get_bit_spec(b, 14));
    assert(get_bit_spec(a, 15) == get_bit_spec(b, 15));
    assert(get_bit_spec(a, 16) == get_bit_spec(b, 16));
    assert(get_bit_spec(a, 17) == get_bit_spec(b, 17));
    assert(get_bit_spec(a, 18) == get_bit_spec(b, 18));
    assert(get_bit_spec(a, 19) == get_bit_spec(b, 19));
    assert(get_bit_spec(a, 20) == get_bit_spec(b, 20));
    assert(get_bit_spec(a, 21) == get_bit_spec(b, 21));
    assert(get_bit_spec(a, 22) == get_bit_spec(b, 22));
    assert(get_bit_spec(a, 23) == get_bit_spec(b, 23));
    assert(get_bit_spec(a, 24) == get_bit_spec(b, 24));
    assert(get_bit_spec(a, 25) == get_bit_spec(b, 25));
    assert(get_bit_spec(a, 26) == get_bit_spec(b, 26));
    assert(get_bit_spec(a, 27) == get_bit_spec(b, 27));
    assert(get_bit_spec(a, 28) == get_bit_spec(b, 28));
    assert(get_bit_spec(a, 29) == get_bit_spec(b, 29));
    assert(get_bit_spec(a, 30) == get_bit_spec(b, 30));
    assert(get_bit_spec(a, 31) == get_bit_spec(b, 31));
    assert({
        &&& ((a >> 0u32) & 1 == 1) == ((b >> 0u32) & 1 == 1)
        &&& ((a >> 1u32) & 1 == 1) == ((b >> 1u32) & 1 == 1)
        &&& ((a >> 2u32) & 1 == 1) == ((b >> 2u32) & 1 == 1)
        &&& ((a >> 3u32) & 1 == 1) == ((b >> 3u32) & 1 == 1)
        &&& ((a >> 4u32) & 1 == 1) == ((b >> 4u32) & 1 == 1)
        &&& ((a >> 5u32) & 1 == 1) == ((b >> 5u32) & 1 == 1)
        &&& ((a >> 6u32) & 1 == 1) == ((b >> 6u32) & 1 == 1)
        &&& ((a >> 7u32) & 1 == 1) == ((b >> 7u32) & 1 == 1)
        &&& ((a >> 8u32) & 1 == 1) == ((b >> 8u32) & 1 == 1)
        &&& ((a >> 9u32) & 1 == 1) == ((b >> 9u32) & 1 == 1)
        &&& ((a >> 10u32) & 1 == 1) == ((b >> 10u32) & 1 == 1)
        &&& ((a >> 11u32) & 1 == 1) == ((b >> 11u32) & 1 == 1)
        &&& ((a >> 12u32) & 1 == 1) == ((b >> 12u32) & 1 == 1)
        &&& ((a >> 13u32) & 1 == 1) == ((b >> 13u32) & 1 == 1)
        &&& ((a >> 14u32) & 1 == 1) == ((b >> 14u32) & 1 == 1)
        &&& ((a >> 15u32) & 1 == 1) == ((b >> 15u32) & 1 == 1)
        &&& ((a >> 16u32) & 1 == 1) == ((b >> 16u32) & 1 == 1)
        &&& ((a >> 17u32) & 1 == 1) == ((b >> 17u32) & 1 == 1)
        &&& ((a >> 18u32) & 1 == 1) == ((b >> 18u32) & 1 == 1)
        &&& ((a >> 19u32) & 1 == 1) == ((b >> 19u32) & 1 == 1)
        &&& ((a >> 20u32) & 1 == 1) == ((b >> 20u32) & 1 == 1)
        &&& ((a >> 21u32) & 1 == 1) == ((b >> 21u32) & 1 == 1)
        &&& ((a >> 22u32) & 1 == 1) == ((b >> 22u32) & 1 == 1)
        &&& ((a >> 23u32) & 1 == 1) == ((b >> 23u32) & 1 == 1)
        &&& ((a >> 24u32) & 1 == 1) == ((b >> 24u32) & 1 == 1)
        &&& ((a >> 25u32) & 1 == 1) == ((b >> 25u32) & 1 == 1)
        &&& ((a >> 26u32) & 1 == 1) == ((b >> 26u32) & 1 == 1)
        &&& ((a >> 27u32) & 1 == 1) == ((b >> 27u32) & 1 == 1)
        &&& ((a >> 28u32) & 1 == 1) == ((b >> 28u32) & 1 == 1)
        &&& ((a >> 29u32) & 1 == 1) == ((b >> 29u32) & 1 == 1)
        &&& ((a >> 30u32) & 1 == 1) == ((b >> 30u32) & 1 == 1)
        &&& ((a >> 31u32) & 1 == 1) == ((b >> 31u32) & 1 == 1)
    } ==> a == b) by (bit_vector);
}

/// A field is all ones exactly when every bit of it is set.
pub proof fn lemma_is_ones(value: u32, start: int, end: int)
    requires
        0 <= start <= end <= 32,
    ensures
        is_ones_spec(value, start, end) == (forall|j: int|
            start <= j < end ==> #[trigger] get_bit_spec(value, j)),
{
    let field: u32 = get_bits_spec(value, start, end);
    let mask: u32 = low_mask(end - start);
    assert forall|j: int| 0 <= j < 32 implies #[trigger] get_bit_spec(field, j) == (j < end - start
        && get_bit_spec(value, start + j)) by {
        lemma_get_bits(value, start, end, j);
    }
    assert forall|j: int| 0 <= j < 32 implies #[trigger] get_bit_spec(mask, j) == (j < end - start) by {
        lemma_low_mask(end - start, j);
    }
    if field == mask {
        assert forall|j: int| start <= j < end implies #[trigger] get_bit_spec(value, j) by {
            assert(get_bit_spec(field, j - start) == get_bit_spec(mask, j - start));
        }
    }
    if forall|j: int| start <= j < end ==> #[trigger] get_bit_spec(value, j) {
        assert forall|j: int| 0 <= j < 32 implies #[trigger] get_bit_spec(field, j) == get_bit_spec(
            mask,
            j,
        ) by {
            if j < end - start {
                assert(get_bit_spec(value, start + j));
            }
        }
        lemma_same_bits(field, mask);
    }
}

/// Bit 31, the sign of a word.
pub open spec fn is_negative(value: u32) -> bool {
    value >= 0x8000_0000
}

/// The low byte of a word.
pub open spec fn uxtb_spec(value: u32) -> u32 {
    value % 0x100
}

/// The low halfword of a word.
pub open spec fn uxth_spec(value: u32) -> u32 {
    value % 0x1_0000
}

/// The low byte of a word, read as a signed number.
pub open spec fn sxtb_spec(value: u32) -> u32 {
    let byte: u32 = value % 0x100;
    if byte >= 0x80 {
        (byte + 0xffff_ff00) as u32
    } else {
        byte
    }
}

/// The low halfword of a word, read as a signed number.
pub open spec fn sxth_spec(value: u32) -> u32 {
    let half: u32 = value % 0x1_0000;
    if half >= 0x8000 {
        (half + 0xffff_0000) as u32
    } else {
        half
    }
}

/// The four bytes of a word in the opposite order.
pub open spec fn rev_spec(value: u32) -> u32 {
    u32_of_bytes(byte_of(value, 3), byte_of(value, 2), byte_of(value, 1), byte_of(value, 0))
}

/// The two bytes of each halfword of a word exchanged.
pub open spec fn rev16_spec(value: u32) -> u32 {
    u32_of_bytes(byte_of(value, 1), byte_of(value, 0), byte_of(value, 3), byte_of(value, 2))
}

/// The two low bytes of a word exchanged, and the halfword read as a signed
/// number.
pub open spec fn revsh_spec(value: u32) -> u32 {
    sxth_spec(u32_of_bytes(byte_of(value, 1), byte_of(value, 0), 0, 0))
}

/// The low byte of a word.
pub fn uxtb(value: u32) -> (r: u32)
    ensures
        r == uxtb_spec(value),
{
    value % 0x100
}

/// The low halfword of a word.
pub fn uxth(value: u32) -> (r: u32)
    ensures
        r == uxth_spec(value),
{
    value % 0x1_0000
}

/// The low byte of a word, read as a signed number.
pub fn sxtb(value: u32) -> (r: u32)
    ensures
        r == sxtb_spec(value),
{
    let byte: u32 = value % 0x100;
    if byte >= 0x80 {
        byte + 0xffff_ff00
    } else {
        byte
    }
}

/// The low halfword of a word, read as a signed number.
pub fn sxth(value: u32) -> (r: u32)
    ensures
        r == sxth_spec(value),
{
    let half: u32 = value % 0x1_0000;
    if half >= 0x8000 {
        half + 0xffff_0000
    } else {
        half
    }
}

/// The four bytes of a word in the opposite order.
pub fn rev(value: u32) -> (r: u32)
    ensures
        r == rev_spec(value),
{
    (value / 0x100_0000) + ((value / 0x1_0000) % 0x100) * 0x100 + ((value / 0x100) % 0x100)
        * 0x1_0000 + (value % 0x100) * 0x100_0000
}

/// The two bytes of each halfword of a word exchanged.
pub fn rev16(value: u32) -> (r: u32)
    ensures
        r == rev16_spec(value),
{
    ((value / 0x100) % 0x100) + (value % 0x100) * 0x100 + (value / 0x100_0000) * 0x1_0000 + ((value
        / 0x1_0000) % 0x100) * 0x100_0000
}

/// The two low bytes of a word exchanged, and the halfword read as a signed
/// number.
pub fn revsh(value: u32) -> (r: u32)
    ensures
        r == revsh_spec(value),
{
    sxth(((value / 0x100) % 0x100) + (value % 0x100) * 0x100)
}

/// Reversing the bytes of a word twice gives the word back.
pub proof fn lemma_rev_rev(value: u32)
    ensures
        rev_spec(rev_spec(value)) == value,
{
    lemma_bytes_of_word(byte_of(value, 3), byte_of(value, 2), byte_of(value, 1), byte_of(value, 0));
    lemma_word_of_bytes(value);
}

/// Exchanging the bytes of each halfword twice gives the word back.
pub proof fn lemma_rev16_rev16(value: u32)
    ensures
        rev16_spec(rev16_spec(value)) == value,
{
    lemma_bytes_of_word(byte_of(value, 1), byte_of(value, 0), byte_of(value, 3), byte_of(value, 2));
    lemma_word_of_bytes(value);
}

/// A left shift by nothing hands back the value and the carry it was given;
/// a left shift by 32 places leaves zero, with bit 0 of the value as carry.
pub proof fn lemma_lsl_boundaries(value: u32, carry_in: bool)
    ensures
        shift_c_spec(value, SRType::Lsl, 0, carry_in) == (value, carry_in),
        shift_c_spec(value, SRType::Lsl, 32, carry_in) == (0u32, get_bit_spec(value, 0)),
{
}

} // verus!
