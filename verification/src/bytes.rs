//! Splitting 16-bit words into bytes and putting them together again.

use vstd::prelude::*;

verus! {

/// The word whose high byte is `h` and whose low byte is `l`.
pub open spec fn word_of(h: u8, l: u8) -> u16 {
    (h * 256 + l) as u16
}

/// The upper eight bits of `n`.
pub open spec fn high_of(n: u16) -> u8 {
    (n / 256) as u8
}

/// The lower eight bits of `n`.
pub open spec fn low_of(n: u16) -> u8 {
    (n % 256) as u8
}

/// The byte that an 8-bit register holds after it was set to `i`: `i` modulo 256.
pub open spec fn wrap8(i: int) -> u8 {
    (i % 256) as u8
}

/// The word that a 16-bit register holds after it was set to `i`: `i` modulo 65536.
pub open spec fn wrap16(i: int) -> u16 {
    (i % 65536) as u16
}

proof fn lemma_shifts(h: u8, l: u8, n: u16)
    by (bit_vector)
    ensures
        (h as u16) << 8 | (l as u16) == h as u16 * 256 + l as u16,
        (n >> 8) as u8 == n / 256,
        (n & 0xff) as u8 == n % 256,
{
}

/// Cutting a 32-bit sum down to sixteen bits keeps it modulo 65536.
pub proof fn lemma_low_word(n: u32)
    by (bit_vector)
    ensures
        n as u16 == n % 0x10000,
{
}

/// A word is the pair of its two bytes: splitting and assembling undo each
/// other, in both directions.
pub proof fn lemma_word_bytes(h: u8, l: u8, n: u16)
    ensures
        high_of(word_of(h, l)) == h,
        low_of(word_of(h, l)) == l,
        word_of(high_of(n), low_of(n)) == n,
{
}

#[verifier::when_used_as_spec(word_of)]
pub fn assemble_word(h: u8, l: u8) -> (r: u16)
    ensures
        r == word_of(h, l),
{
    proof {
        lemma_shifts(h, l, 0);
    }
    (h as u16) << 8 | (l as u16)
}

#[verifier::when_used_as_spec(high_of)]
pub fn high_order_byte(n: u16) -> (r: u8)
    ensures
        r == high_of(n),
{
    proof {
        lemma_shifts(0, 0, n);
    }
    (n >> 8) as u8
}

#[verifier::when_used_as_spec(low_of)]
pub fn low_order_byte(n: u16) -> (r: u8)
    ensures
        r == low_of(n),
{
    proof {
        lemma_shifts(0, 0, n);
    }
    (n & 0xff) as u8
}

} // verus!
