//! Bytes, words and the arithmetic reading of the bit operations used by the
//! rest of the crate.
use vstd::prelude::*;

verus! {

/// The 16-bit word with high byte `h` and low byte `l`.
#[verifier::opaque]
pub open spec fn word(h: u8, l: u8) -> u16 {
    (h * 256 + l) as u16
}

/// The high byte of a word.
#[verifier::opaque]
pub open spec fn hi(w: u16) -> u8 {
    (w / 256) as u8
}

/// The low byte of a word.
#[verifier::opaque]
pub open spec fn lo(w: u16) -> u8 {
    (w % 256) as u8
}

/// The 16-bit word that is congruent to `w`: addresses and words wrap.
pub open spec fn wrap16(w: int) -> u16 {
    (w % 65536) as u16
}

/// The byte that is congruent to `b`.
pub open spec fn wrap8(b: int) -> u8 {
    (b % 256) as u8
}

/// The value of a byte read as a two's complement number.
pub open spec fn signed(b: u8) -> int {
    if b < 128 {
        b as int
    } else {
        b - 256
    }
}

/// A word is made of its two halves.
pub proof fn lemma_word_parts(w: u16)
    ensures
        word(hi(w), lo(w)) == w,
{
    reveal(word);
    reveal(hi);
    reveal(lo);
}

/// The two halves of a word made of `h` and `l` are `h` and `l`: the halves of
/// a register pair are the big-endian split of the word written to it.
pub proof fn lemma_parts_word(h: u8, l: u8)
    ensures
        hi(word(h, l)) == h,
        lo(word(h, l)) == l,
{
    reveal(word);
    reveal(hi);
    reveal(lo);
}

/// The shift and the mask that split a word, read as arithmetic.
pub proof fn lemma_shift_word(w: u16)
    by (bit_vector)
    ensures
        w >> 8 == w / 256,
        w & 0xFF == w % 256,
        w >> 8 < 256,
        w & 0xFF < 256,
{
}

/// The shift and the union that join two bytes, read as arithmetic.
pub proof fn lemma_join_word(h: u8, l: u8)
    by (bit_vector)
    ensures
        ((h as u16) << 8) | (l as u16) == (h as u16) * 256 + (l as u16),
{
}

/// The high byte of a word.
pub fn high_byte(w: u16) -> (b: u8)
    ensures
        b == hi(w),
{
    proof {
        reveal(hi);
        lemma_shift_word(w);
    }
    (w >> 8) as u8
}

/// The low byte of a word.
pub fn low_byte(w: u16) -> (b: u8)
    ensures
        b == lo(w),
{
    proof {
        reveal(lo);
        lemma_shift_word(w);
    }
    (w & 0xFF) as u8
}

/// The word with high byte `h` and low byte `l`.
pub fn make_word(h: u8, l: u8) -> (w: u16)
    ensures
        w == word(h, l),
{
    proof {
        reveal(word);
        lemma_join_word(h, l);
    }
    ((h as u16) << 8) | (l as u16)
}

} // verus!
