//! The arithmetic and logic of the processor, as functions on bytes: each
//! gives the result of an operation and the flag byte it leaves.
use vstd::prelude::*;
use crate::bits::wrap8;

verus! {

/// The result of an operation together with the flag byte that it leaves.
pub struct Alu {
    pub value: u8,
    pub flags: u8,
}

/// The flag byte with Z in bit 7, N in bit 6, H in bit 5 and C in bit 4.
#[verifier::opaque]
pub open spec fn pack_flags(z: bool, n: bool, h: bool, c: bool) -> u8 {
    let z_bit = if z { 128int } else { 0 };
    let n_bit = if n { 64int } else { 0 };
    let h_bit = if h { 32int } else { 0 };
    let c_bit = if c { 16int } else { 0 };
    (z_bit + n_bit + h_bit + c_bit) as u8
}

/// Z, the zero flag: bit 7.
#[verifier::opaque]
pub open spec fn flag_z(f: u8) -> bool {
    f >= 128
}

/// N, the subtraction flag: bit 6.
#[verifier::opaque]
pub open spec fn flag_n(f: u8) -> bool {
    f % 128 >= 64
}

/// H, the half-carry flag: bit 5.
#[verifier::opaque]
pub open spec fn flag_h(f: u8) -> bool {
    f % 64 >= 32
}

/// C, the carry flag: bit 4.
#[verifier::opaque]
pub open spec fn flag_c(f: u8) -> bool {
    f % 32 >= 16
}

/// The flag byte with Z replaced; the low nibble is cleared.
#[verifier::opaque]
pub open spec fn flags_with_z(f: u8, z: bool) -> u8 {
    pack_flags(z, flag_n(f), flag_h(f), flag_c(f))
}

/// The flag byte with N replaced; the low nibble is cleared.
#[verifier::opaque]
pub open spec fn flags_with_n(f: u8, n: bool) -> u8 {
    pack_flags(flag_z(f), n, flag_h(f), flag_c(f))
}

/// The flag byte with H replaced; the low nibble is cleared.
#[verifier::opaque]
pub open spec fn flags_with_h(f: u8, h: bool) -> u8 {
    pack_flags(flag_z(f), flag_n(f), h, flag_c(f))
}

/// The flag byte with C replaced; the low nibble is cleared.
#[verifier::opaque]
pub open spec fn flags_with_c(f: u8, c: bool) -> u8 {
    pack_flags(flag_z(f), flag_n(f), flag_h(f), c)
}

/// A carry as a number.
pub open spec fn carry_in(c: bool) -> int {
    if c {
        1
    } else {
        0
    }
}

/// `a + n + carry`.
#[verifier::opaque]
pub open spec fn alu_add(a: u8, n: u8, carry: bool) -> Alu {
    let sum = a + n + carry_in(carry);
    Alu {
        value: wrap8(sum),
        flags: pack_flags(
            wrap8(sum) == 0,
            false,
            a % 16 + n % 16 + carry_in(carry) > 15,
            sum > 255,
        ),
    }
}

/// `a - n - carry`.
#[verifier::opaque]
pub open spec fn alu_sub(a: u8, n: u8, carry: bool) -> Alu {
    let diff = a - n - carry_in(carry);
    Alu {
        value: wrap8(diff),
        flags: pack_flags(wrap8(diff) == 0, true, a % 16 < n % 16 + carry_in(carry), diff < 0),
    }
}

/// `a & n`; H is set.
#[verifier::opaque]
pub open spec fn alu_and(a: u8, n: u8) -> Alu {
    Alu { value: a & n, flags: pack_flags(a & n == 0, false, true, false) }
}

/// `a | n`.
#[verifier::opaque]
pub open spec fn alu_or(a: u8, n: u8) -> Alu {
    Alu { value: a | n, flags: pack_flags(a | n == 0, false, false, false) }
}

/// `a ^ n`.
#[verifier::opaque]
pub open spec fn alu_xor(a: u8, n: u8) -> Alu {
    Alu { value: a ^ n, flags: pack_flags(a ^ n == 0, false, false, false) }
}

/// `v + 1`; the carry flag of `f` stays.
#[verifier::opaque]
pub open spec fn alu_inc(v: u8, f: u8) -> Alu {
    Alu { value: wrap8(v + 1), flags: pack_flags(v == 255, false, v % 16 == 15, flag_c(f)) }
}

/// `v - 1`; the carry flag of `f` stays.
#[verifier::opaque]
pub open spec fn alu_dec(v: u8, f: u8) -> Alu {
    Alu { value: wrap8(v - 1), flags: pack_flags(v == 1, true, v % 16 == 0, flag_c(f)) }
}

/// The flags of a rotate or a shift: Z from the result, C the bit that left.
pub open spec fn shifted(value: int, out: bool) -> Alu {
    Alu { value: value as u8, flags: pack_flags(value == 0, false, false, out) }
}

/// Rotate left; bit 7 goes to bit 0 and to C.
#[verifier::opaque]
pub open spec fn alu_rlc(v: u8) -> Alu {
    shifted((v * 2) % 256 + v / 128, v >= 128)
}

/// Rotate left through C.
#[verifier::opaque]
pub open spec fn alu_rl(v: u8, f: u8) -> Alu {
    shifted((v * 2) % 256 + carry_in(flag_c(f)), v >= 128)
}

/// Rotate right; bit 0 goes to bit 7 and to C.
#[verifier::opaque]
pub open spec fn alu_rrc(v: u8) -> Alu {
    shifted(v / 2 + (v % 2) * 128, v % 2 == 1)
}

/// Rotate right through C.
#[verifier::opaque]
pub open spec fn alu_rr(v: u8, f: u8) -> Alu {
    shifted(v / 2 + carry_in(flag_c(f)) * 128, v % 2 == 1)
}

/// Shift left; bit 0 becomes 0.
#[verifier::opaque]
pub open spec fn alu_sla(v: u8) -> Alu {
    shifted((v * 2) % 256, v >= 128)
}

/// Shift right; bit 7 stays.
#[verifier::opaque]
pub open spec fn alu_sra(v: u8) -> Alu {
    shifted(v / 2 + (v / 128) * 128, v % 2 == 1)
}

/// Shift right; bit 7 becomes 0.
#[verifier::opaque]
pub open spec fn alu_srl(v: u8) -> Alu {
    shifted(v as int / 2, v % 2 == 1)
}

/// Exchange the two nibbles.
#[verifier::opaque]
pub open spec fn alu_swap(v: u8) -> Alu {
    shifted((v % 16) * 16 + v / 16, false)
}

/// Bit `n` of `v` is set.
pub open spec fn test_bit(v: u8, n: u8) -> bool {
    (v >> n) & 1 == 1
}

/// The flags of a bit test: Z when the bit is clear, H set, C kept.
#[verifier::opaque]
pub open spec fn alu_bit(n: u8, v: u8, f: u8) -> u8 {
    pack_flags(!test_bit(v, n), false, true, flag_c(f))
}

/// `v` with bit `n` cleared.
pub open spec fn alu_res(n: u8, v: u8) -> u8 {
    v & !(1u8 << n)
}

/// `v` with bit `n` set.
pub open spec fn alu_set(n: u8, v: u8) -> u8 {
    v | (1u8 << n)
}

/// What the decimal adjust adds to, or takes from, the accumulator, given
/// the flags N, H and C.
pub open spec fn daa_adjust(a: u8, n: bool, h: bool, c: bool) -> int {
    let low = if h || (!n && a % 16 > 9) { 0x06int } else { 0 };
    let high = if c || (!n && a > 0x99) { 0x60int } else { 0 };
    low + high
}

/// The accumulator after the decimal adjust.
pub open spec fn daa_value(a: u8, n: bool, h: bool, c: bool) -> u8 {
    if n {
        wrap8(a - daa_adjust(a, n, h, c))
    } else {
        wrap8(a + daa_adjust(a, n, h, c))
    }
}

/// Decimal adjust of the accumulator after an addition or a subtraction: N
/// stays, H is cleared, C is set when 0x60 was part of the adjustment.
#[verifier::opaque]
pub open spec fn alu_daa(a: u8, f: u8) -> Alu {
    let n = flag_n(f);
    let h = flag_h(f);
    let c = flag_c(f);
    Alu {
        value: daa_value(a, n, h, c),
        flags: pack_flags(daa_value(a, n, h, c) == 0, n, false, daa_adjust(a, n, h, c) >= 0x60),
    }
}

/// The flags of adding a signed byte to the stack pointer: the carries are
/// those of the low byte.
#[verifier::opaque]
pub open spec fn sp_offset_flags(sp: u16, e: u8) -> u8 {
    pack_flags(false, false, sp % 16 + e % 16 > 15, sp % 256 + e > 255)
}

/// The flags of a 16-bit addition to HL: Z stays.
#[verifier::opaque]
pub open spec fn add16_flags(n1: u16, n2: u16, f: u8) -> u8 {
    pack_flags(flag_z(f), false, n1 % 4096 + n2 % 4096 > 4095, n1 + n2 > 65535)
}

/// Each flag of a packed byte reads back as it was packed, and the low
/// nibble of the byte is clear.
pub proof fn lemma_pack_flags(z: bool, n: bool, h: bool, c: bool)
    ensures
        flag_z(pack_flags(z, n, h, c)) == z,
        flag_n(pack_flags(z, n, h, c)) == n,
        flag_h(pack_flags(z, n, h, c)) == h,
        flag_c(pack_flags(z, n, h, c)) == c,
        pack_flags(z, n, h, c) % 16 == 0,
{
    reveal(pack_flags);
    reveal(flag_z);
    reveal(flag_n);
    reveal(flag_h);
    reveal(flag_c);
}

/// Every flag of a packed byte reads back as it was packed.
pub proof fn lemma_flags_read_back()
    ensures
        forall|z: bool, n: bool, h: bool, c: bool| #[trigger]
            flag_z(pack_flags(z, n, h, c)) == z,
        forall|z: bool, n: bool, h: bool, c: bool| #[trigger]
            flag_n(pack_flags(z, n, h, c)) == n,
        forall|z: bool, n: bool, h: bool, c: bool| #[trigger]
            flag_h(pack_flags(z, n, h, c)) == h,
        forall|z: bool, n: bool, h: bool, c: bool| #[trigger]
            flag_c(pack_flags(z, n, h, c)) == c,
{
    assert forall|z: bool, n: bool, h: bool, c: bool|
        flag_z(#[trigger] pack_flags(z, n, h, c)) == z && flag_n(pack_flags(z, n, h, c)) == n
            && flag_h(pack_flags(z, n, h, c)) == h && flag_c(pack_flags(z, n, h, c)) == c by {
        lemma_pack_flags(z, n, h, c);
    }
}

/// Every operation leaves a flag byte whose low nibble is clear.
pub proof fn lemma_flags_low_nibble()
    ensures
        forall|z: bool, n: bool, h: bool, c: bool| #[trigger] pack_flags(z, n, h, c) % 16 == 0,
        forall|f: u8, b: bool| #[trigger] flags_with_z(f, b) % 16 == 0,
        forall|a: u8, n: u8, c: bool| (#[trigger] alu_add(a, n, c)).flags % 16 == 0,
        forall|a: u8, n: u8, c: bool| (#[trigger] alu_sub(a, n, c)).flags % 16 == 0,
        forall|a: u8, n: u8| (#[trigger] alu_and(a, n)).flags % 16 == 0,
        forall|a: u8, n: u8| (#[trigger] alu_or(a, n)).flags % 16 == 0,
        forall|a: u8, n: u8| (#[trigger] alu_xor(a, n)).flags % 16 == 0,
        forall|v: u8, f: u8| (#[trigger] alu_inc(v, f)).flags % 16 == 0,
        forall|v: u8, f: u8| (#[trigger] alu_dec(v, f)).flags % 16 == 0,
        forall|v: u8| (#[trigger] alu_rlc(v)).flags % 16 == 0,
        forall|v: u8| (#[trigger] alu_rrc(v)).flags % 16 == 0,
        forall|v: u8, f: u8| (#[trigger] alu_rl(v, f)).flags % 16 == 0,
        forall|v: u8, f: u8| (#[trigger] alu_rr(v, f)).flags % 16 == 0,
        forall|v: u8| (#[trigger] alu_sla(v)).flags % 16 == 0,
        forall|v: u8| (#[trigger] alu_sra(v)).flags % 16 == 0,
        forall|v: u8| (#[trigger] alu_srl(v)).flags % 16 == 0,
        forall|v: u8| (#[trigger] alu_swap(v)).flags % 16 == 0,
        forall|a: u8, f: u8| (#[trigger] alu_daa(a, f)).flags % 16 == 0,
        forall|n: u8, v: u8, f: u8| #[trigger] alu_bit(n, v, f) % 16 == 0,
        forall|sp: u16, e: u8| #[trigger] sp_offset_flags(sp, e) % 16 == 0,
        forall|n1: u16, n2: u16, f: u8| #[trigger] add16_flags(n1, n2, f) % 16 == 0,
{
    assert forall|z: bool, n: bool, h: bool, c: bool| #[trigger]
        pack_flags(z, n, h, c) % 16 == 0 by {
        lemma_pack_flags(z, n, h, c);
    }
    reveal(flags_with_z);
    reveal(alu_add);
    reveal(alu_sub);
    reveal(alu_and);
    reveal(alu_or);
    reveal(alu_xor);
    reveal(alu_inc);
    reveal(alu_dec);
    reveal(alu_rlc);
    reveal(alu_rrc);
    reveal(alu_rl);
    reveal(alu_rr);
    reveal(alu_sla);
    reveal(alu_sra);
    reveal(alu_srl);
    reveal(alu_swap);
    reveal(alu_daa);
    reveal(alu_bit);
    reveal(sp_offset_flags);
    reveal(add16_flags);
}

/// The masks of the flag bits and of the nibbles, read as arithmetic.
pub proof fn lemma_flag_masks(f: u8)
    by (bit_vector)
    ensures
        (f & 0x80 != 0) == (f >= 128),
        (f & 0x40 != 0) == (f % 128 >= 64),
        (f & 0x20 != 0) == (f % 64 >= 32),
        (f & 0x10 != 0) == (f % 32 >= 16),
        f & 0x0F == f % 16,
        f & 0xF0 == (f / 16) * 16,
        f & 0x01 == f % 2,
{
}

/// The mask of the low nibble is the remainder by 16.
pub proof fn lemma_low_nibble(b: u8)
    by (bit_vector)
    ensures
        b & 0x0F == b % 16,
{
}

/// The masks of the low 12, 8 and 4 bits of a word are remainders.
pub proof fn lemma_word_masks(w: u16)
    by (bit_vector)
    ensures
        w & 0x0FFF == w % 4096,
        w & 0x00FF == w % 256,
        w & 0x000F == w % 16,
{
}

/// The left rotates and shifts of a byte, read as arithmetic.
pub proof fn lemma_rotate_left(v: u8, c: u8)
    by (bit_vector)
    requires
        c <= 1,
    ensures
        (v << 1) | (v >> 7) == (v as u16 * 2) % 256 + (v as u16) / 128,
        (v << 1) | c == (v as u16 * 2) % 256 + (c as u16),
        (v << 1) == (v as u16 * 2) % 256,
{
}

/// The right rotates and shifts of a byte and the exchange of its nibbles,
/// read as arithmetic.
pub proof fn lemma_rotate_right(v: u8, c: u8)
    by (bit_vector)
    requires
        c <= 1,
    ensures
        (v >> 1) | ((v & 1) << 7) == (v as u16) / 2 + ((v as u16) % 2) * 128,
        (v >> 1) | (c << 7) == (v as u16) / 2 + (c as u16) * 128,
        (v >> 1) | (v & 0x80) == (v as u16) / 2 + ((v as u16) / 128) * 128,
        (v >> 1) == (v as u16) / 2,
        ((v & 0x0F) << 4) | ((v & 0xF0) >> 4) == ((v as u16) % 16) * 16 + (v as u16) / 16,
{
}

/// `a + n + carry` on bytes: the sum, the carry out of bit 7 and the carry out
/// of bit 3.
pub fn add_with_carry(a: u8, n: u8, carry: bool) -> (r: (u8, bool, bool))
    ensures
        r.0 == wrap8(a + n + carry_in(carry)),
        r.1 == (a + n + carry_in(carry) > 255),
        r.2 == (a % 16 + n % 16 + carry_in(carry) > 15),
{
    proof {
        lemma_low_nibble(a);
        lemma_low_nibble(n);
    }
    let c: u8 = if carry { 1 } else { 0 };
    let sum: u16 = (a as u16) + (n as u16) + (c as u16);
    let result: u8 = a.wrapping_add(n).wrapping_add(c);
    (result, sum > 0xFF, (a & 0x0F) + (n & 0x0F) + c > 0x0F)
}

/// `a - n - carry` on bytes: the difference, the borrow into bit 7 and the
/// borrow into bit 3.
pub fn sub_with_borrow(a: u8, n: u8, carry: bool) -> (r: (u8, bool, bool))
    ensures
        r.0 == wrap8(a - n - carry_in(carry)),
        r.1 == (a - n - carry_in(carry) < 0),
        r.2 == (a % 16 < n % 16 + carry_in(carry)),
{
    proof {
        lemma_low_nibble(a);
        lemma_low_nibble(n);
    }
    let c: u8 = if carry { 1 } else { 0 };
    let result: u8 = a.wrapping_sub(n).wrapping_sub(c);
    (result, (a as u16) < (n as u16) + (c as u16), (a & 0x0F) < (n & 0x0F) + c)
}

/// The decimal adjust on bytes: the adjusted accumulator and the carry.
pub fn decimal_adjust(a: u8, n: bool, h: bool, c: bool) -> (r: (u8, bool))
    ensures
        r.0 == daa_value(a, n, h, c),
        r.1 == (daa_adjust(a, n, h, c) >= 0x60),
{
    proof {
        lemma_low_nibble(a);
    }
    let low: u8 = if h || (!n && (a & 0x0F) > 9) { 0x06 } else { 0 };
    let high: u8 = if c || (!n && a > 0x99) { 0x60 } else { 0 };
    let adjust: u8 = low + high;
    let result: u8 = if n { a.wrapping_sub(adjust) } else { a.wrapping_add(adjust) };
    (result, high != 0)
}

} // verus!
