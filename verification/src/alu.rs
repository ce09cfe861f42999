//! The ALU: 32-bit add/subtract with optional carry-in, logical and
//! arithmetic shifts, and the condition-flag file semantics.
//!
//! F[0] holds the condition flags, high bit to low: P (parity of the
//! result), L/G/E (unsigned less/greater/equal of the operands), V (signed
//! overflow), C (carry or borrow out), S/B (signed less/greater of the
//! operands; equality clears both).

use vstd::prelude::*;

verus! {

/// The sign bit of a 32-bit value.
pub open spec fn sign_u32_spec(x: u32) -> bool {
    x & 0x80000000u32 != 0
}

pub fn sign_u32(x: u32) -> (r: bool)
    ensures
        r == sign_u32_spec(x),
{
    x & 0x80000000 != 0
}

/// P: set iff the result is odd.
pub open spec fn with_parity(f: u8, y: u32) -> u8 {
    if y & 1 == 1 {
        f | 0b10000000
    } else {
        f & 0b01111111
    }
}

/// C: carry or borrow out.
pub open spec fn with_carry(f: u8, c: bool) -> u8 {
    if c {
        f | 0b00000100
    } else {
        f & 0b11111011
    }
}

/// L/G/E from the unsigned order of the operands; exactly one of the three
/// is set afterwards.
pub open spec fn with_unsigned_order(f: u8, dest: u32, src: u32) -> u8 {
    if src < dest {
        (f | 0b01000000) & 0b11001111
    } else if src > dest {
        (f | 0b00100000) & 0b10101111
    } else {
        (f | 0b00010000) & 0b10011111
    }
}

/// S/B from the signed order of the operands; equality clears both.
pub open spec fn with_signed_order(f: u8, dest: u32, src: u32) -> u8 {
    if (src as i32) < (dest as i32) {
        (f | 0b00000010) & 0b11111110
    } else if (src as i32) > (dest as i32) {
        (f | 0b00000001) & 0b11111101
    } else {
        f & 0b11111100
    }
}

/// V: signed overflow.
pub open spec fn with_overflow(f: u8, v: bool) -> u8 {
    if v {
        f | 0b00001000
    } else {
        f & 0b11110111
    }
}

/// Logical shift left by `src mod 32`; C takes the last bit shifted out,
/// P follows the result, the other flags are untouched.
pub open spec fn alu_shl_spec(dest: u32, src: u32, flags: u8) -> (u32, u8) {
    let x = (dest as u64) << ((src % 32) as u64);
    let carry = (x >> 32u64) & 1 == 1;
    let y = (x & 0xFFFFFFFFu64) as u32;
    (y, with_carry(with_parity(flags, y), carry))
}

pub fn alu_shl(dest: u32, src: u32, flags: u8) -> (r: (u32, u8))
    ensures
        r == alu_shl_spec(dest, src, flags),
{
    let sh: u64 = (src % 32) as u64;
    let x = (dest as u64) << sh;
    let carry = (x >> 32u64) & 1 == 1;
    let y = (x & 0xFFFFFFFF) as u32;

    let mut f = flags;
    if y & 1 == 1 {
        f |= 0b10000000;
    } else {
        f &= 0b01111111;
    }
    if carry {
        f |= 0b00000100;
    } else {
        f &= 0b11111011;
    }
    (y, f)
}

/// Logical shift right by `src mod 32`; computed in a 64-bit window so the
/// carry holds the last bit shifted out.
pub open spec fn alu_shr_spec(dest: u32, src: u32, flags: u8) -> (u32, u8) {
    let x = ((dest as u64) << 32u64) >> ((src % 32) as u64);
    let carry = x & 0x80000000u64 != 0;
    let y = ((x >> 32u64) & 0xFFFFFFFFu64) as u32;
    (y, with_carry(with_parity(flags, y), carry))
}

pub fn alu_shr(dest: u32, src: u32, flags: u8) -> (r: (u32, u8))
    ensures
        r == alu_shr_spec(dest, src, flags),
{
    let sh: u64 = (src % 32) as u64;
    let x = ((dest as u64) << 32u64) >> sh;
    let carry = x & 0x80000000 != 0;
    let y = ((x >> 32u64) & 0xFFFFFFFF) as u32;

    let mut f = flags;
    if y & 1 == 1 {
        f |= 0b10000000;
    } else {
        f &= 0b01111111;
    }
    if carry {
        f |= 0b00000100;
    } else {
        f &= 0b11111011;
    }
    (y, f)
}

/// Arithmetic shift left: the 64-bit window is signed, which leaves the
/// low 32 result bits and the carry as in the logical case.
pub open spec fn alu_sal_spec(dest: u32, src: u32, flags: u8) -> (u32, u8) {
    let x = (dest as i64) << ((src % 32) as i64);
    let carry = (x >> 32i64) & 1 == 1;
    let y = (x & 0xFFFFFFFFi64) as u32;
    (y, with_carry(with_parity(flags, y), carry))
}

pub fn alu_sal(dest: u32, src: u32, flags: u8) -> (r: (u32, u8))
    ensures
        r == alu_sal_spec(dest, src, flags),
{
    let sh: i64 = (src % 32) as i64;
    let x = (dest as i64) << sh;
    let carry = (x >> 32i64) & 1 == 1;
    let y = (x & 0xFFFFFFFF) as u32;

    let mut f = flags;
    if y & 1 == 1 {
        f |= 0b10000000;
    } else {
        f &= 0b01111111;
    }
    if carry {
        f |= 0b00000100;
    } else {
        f &= 0b11111011;
    }
    (y, f)
}

/// Arithmetic shift right: the value is placed in the top half of a signed
/// 64-bit window, so the shift drags the sign bit in from the left.
pub open spec fn alu_sar_spec(dest: u32, src: u32, flags: u8) -> (u32, u8) {
    let x = ((dest as i64) << 32i64) >> ((src % 32) as i64);
    let carry = x & 0x80000000i64 != 0;
    let y = ((x >> 32i64) & 0xFFFFFFFFi64) as u32;
    (y, with_carry(with_parity(flags, y), carry))
}

pub fn alu_sar(dest: u32, src: u32, flags: u8) -> (r: (u32, u8))
    ensures
        r == alu_sar_spec(dest, src, flags),
{
    let sh: i64 = (src % 32) as i64;
    let x = ((dest as i64) << 32i64) >> sh;
    let carry = x & 0x80000000 != 0;
    let y = ((x >> 32i64) & 0xFFFFFFFF) as u32;

    let mut f = flags;
    if y & 1 == 1 {
        f |= 0b10000000;
    } else {
        f &= 0b01111111;
    }
    if carry {
        f |= 0b00000100;
    } else {
        f &= 0b11111011;
    }
    (y, f)
}

/// The sum and carry-out of a 32-bit add, with the carry flag folded in
/// when `use_carry` is set and C holds.  C is the unsigned carry-out of
/// the whole sum: it is set exactly when `dest + src + carry-in` exceeds
/// 32 bits, whether the overflow comes from the operands or from the
/// carry-in step.
pub open spec fn alu_add_sum(dest: u32, src: u32, flags: u8, use_carry: bool) -> (u32, bool) {
    let cin = flags & 0b00000100u8 != 0 && use_carry;
    let y1 = if dest + src > 0xFFFFFFFF {
        (dest + src - 0x100000000) as u32
    } else {
        (dest + src) as u32
    };
    let c1 = dest + src > 0xFFFFFFFF;
    if cin {
        let y2 = if y1 == 0xFFFFFFFFu32 {
            0u32
        } else {
            (y1 + 1) as u32
        };
        (y2, c1 || y1 == 0xFFFFFFFFu32)
    } else {
        (y1, c1)
    }
}

/// Full add: result plus the PLGEVCSB flag file, the orders taken over the
/// operands and V from the operand and result signs.
pub open spec fn alu_add_spec(dest: u32, src: u32, flags: u8, use_carry: bool) -> (u32, u8) {
    let (y, carry) = alu_add_sum(dest, src, flags, use_carry);
    let v = (sign_u32_spec(src) && sign_u32_spec(dest) && !sign_u32_spec(y))
        || (!sign_u32_spec(src) && !sign_u32_spec(dest) && sign_u32_spec(y));
    let f1 = with_parity(flags, y);
    let f2 = with_unsigned_order(f1, dest, src);
    let f3 = with_overflow(f2, v);
    let f4 = with_carry(f3, carry);
    let f5 = with_signed_order(f4, dest, src);
    (y, f5)
}

pub fn alu_add(dest: u32, src: u32, flags: u8, use_carry: bool) -> (r: (u32, u8))
    ensures
        r == alu_add_spec(dest, src, flags, use_carry),
{
    let cin = flags & 0b00000100 != 0 && use_carry;
    let mut y = dest.wrapping_add(src);
    let mut carry = y < dest;
    if cin {
        let y2 = y.wrapping_add(1);
        carry = carry || y2 < y;
        y = y2;
    }

    let v = (sign_u32(src) && sign_u32(dest) && !sign_u32(y))
        || (!sign_u32(src) && !sign_u32(dest) && sign_u32(y));

    let mut f = flags;
    if y & 1 == 1 {
        f |= 0b10000000;
    } else {
        f &= 0b01111111;
    }
    if src < dest {
        f |= 0b01000000;
        f &= 0b11001111;
    } else if src > dest {
        f |= 0b00100000;
        f &= 0b10101111;
    } else {
        f |= 0b00010000;
        f &= 0b10011111;
    }
    if v {
        f |= 0b00001000;
    } else {
        f &= 0b11110111;
    }
    if carry {
        f |= 0b00000100;
    } else {
        f &= 0b11111011;
    }
    if (src as i32) < (dest as i32) {
        f |= 0b00000010;
        f &= 0b11111110;
    } else if (src as i32) > (dest as i32) {
        f |= 0b00000001;
        f &= 0b11111101;
    } else {
        f &= 0b11111100;
    }
    (y, f)
}

/// The difference and borrow-out of a 32-bit subtract, with the borrow
/// flag folded in when `use_carry` is set and C holds.  C is the unsigned
/// borrow-out of the whole difference: it is set exactly when
/// `dest < src + borrow-in`, whether the underflow comes from the operands
/// or from the borrow-in step.
pub open spec fn alu_sub_diff(dest: u32, src: u32, flags: u8, use_carry: bool) -> (u32, bool) {
    let cin = flags & 0b00000100u8 != 0 && use_carry;
    let y1 = if dest >= src {
        (dest - src) as u32
    } else {
        (dest - src + 0x100000000) as u32
    };
    let c1 = dest < src;
    if cin {
        let y2 = if y1 == 0u32 {
            0xFFFFFFFFu32
        } else {
            (y1 - 1) as u32
        };
        (y2, c1 || y1 == 0u32)
    } else {
        (y1, c1)
    }
}

/// Full subtract; the compare instruction uses the flag half and discards
/// the difference.
pub open spec fn alu_sub_spec(dest: u32, src: u32, flags: u8, use_carry: bool) -> (u32, u8) {
    let (y, carry) = alu_sub_diff(dest, src, flags, use_carry);
    let v = (sign_u32_spec(src) && !sign_u32_spec(dest) && sign_u32_spec(y))
        || (!sign_u32_spec(src) && sign_u32_spec(dest) && !sign_u32_spec(y));
    let f1 = with_parity(flags, y);
    let f2 = with_unsigned_order(f1, dest, src);
    let f3 = with_overflow(f2, v);
    let f4 = with_carry(f3, carry);
    let f5 = with_signed_order(f4, dest, src);
    (y, f5)
}

pub fn alu_sub(dest: u32, src: u32, flags: u8, use_carry: bool) -> (r: (u32, u8))
    ensures
        r == alu_sub_spec(dest, src, flags, use_carry),
{
    let cin = flags & 0b00000100 != 0 && use_carry;
    let mut y = dest.wrapping_sub(src);
    let mut carry = dest < src;
    if cin {
        let y2 = y.wrapping_sub(1);
        carry = carry || y == 0;
        y = y2;
    }

    let v = (sign_u32(src) && !sign_u32(dest) && sign_u32(y))
        || (!sign_u32(src) && sign_u32(dest) && !sign_u32(y));

    let mut f = flags;
    if y & 1 == 1 {
        f |= 0b10000000;
    } else {
        f &= 0b01111111;
    }
    if src < dest {
        f |= 0b01000000;
        f &= 0b11001111;
    } else if src > dest {
        f |= 0b00100000;
        f &= 0b10101111;
    } else {
        f |= 0b00010000;
        f &= 0b10011111;
    }
    if v {
        f |= 0b00001000;
    } else {
        f &= 0b11110111;
    }
    if carry {
        f |= 0b00000100;
    } else {
        f &= 0b11111011;
    }
    if (src as i32) < (dest as i32) {
        f |= 0b00000010;
        f &= 0b11111110;
    } else if (src as i32) > (dest as i32) {
        f |= 0b00000001;
        f &= 0b11111101;
    } else {
        f &= 0b11111100;
    }
    (y, f)
}

} // verus!
