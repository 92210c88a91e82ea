//! Facts about bytes and words that the bit-vector solver settles once,
//! so that the rest of the crate can reason with plain arithmetic.

use vstd::prelude::*;

verus! {

/// The flag byte whose four upper bits are the given flags, from bit 7
/// down to bit 4, and whose lower nibble is zero.
pub open spec fn flags_byte(z: bool, n: bool, h: bool, c: bool) -> u8 {
    ((if z { 0x80int } else { 0 }) + (if n { 0x40int } else { 0 }) + (if h { 0x20int } else { 0 })
        + (if c { 0x10int } else { 0 })) as u8
}

/// Whether bit `k` of `v` is set, bit 0 being the lowest.
pub open spec fn bit_is_set(v: u8, k: u8) -> bool {
    (v as nat / vstd::arithmetic::power2::pow2(k as nat)) % 2 == 1
}

/// The two bits of `v` that start at bit `k`, as a number from 0 to 3.
pub open spec fn bit_pair(v: u8, k: u8) -> int {
    (v as nat / vstd::arithmetic::power2::pow2(k as nat)) as int % 4
}

/// Tests one bit of a byte.
pub fn test_bit(v: u8, k: u8) -> (set: bool)
    requires
        k < 8,
    ensures
        set == bit_is_set(v, k),
{
    proof {
        vstd::bits::lemma_u8_shr_is_div(v, k);
    }
    (v >> k) % 2 == 1
}

/// Extracts two neighbouring bits of a byte.
pub fn take_bit_pair(v: u8, k: u8) -> (pair: u8)
    requires
        k < 8,
    ensures
        pair == bit_pair(v, k),
        pair < 4,
{
    proof {
        vstd::bits::lemma_u8_shr_is_div(v, k);
    }
    (v >> k) % 4
}

/// Whether `m` is one of the four single-bit flag masks.
pub open spec fn is_flag_mask(m: u8) -> bool {
    m == 0x80 || m == 0x40 || m == 0x20 || m == 0x10
}

/// Setting one flag bit makes it read as set and leaves every other bit alone.
pub proof fn lemma_set_bit(f: u8, m: u8)
    requires
        is_flag_mask(m),
    ensures
        (f | m) & m != 0,
        (f | m) & 0x0F == f & 0x0F,
        forall|k: u8| is_flag_mask(k) && k != m ==> #[trigger] ((f | m) & k) == f & k,
{
    assert((f | m) & m != 0) by (bit_vector)
        requires
            m == 0x80 || m == 0x40 || m == 0x20 || m == 0x10,
    ;
    assert((f | m) & 0x0F == f & 0x0F) by (bit_vector)
        requires
            m == 0x80 || m == 0x40 || m == 0x20 || m == 0x10,
    ;
    assert forall|k: u8| is_flag_mask(k) && k != m implies #[trigger] ((f | m) & k) == f & k by {
        assert(((f | m) & k) == f & k) by (bit_vector)
            requires
                m == 0x80 || m == 0x40 || m == 0x20 || m == 0x10,
                k == 0x80 || k == 0x40 || k == 0x20 || k == 0x10,
                k != m,
        ;
    }
}

/// Clearing one flag bit makes it read as clear and leaves every other bit alone.
pub proof fn lemma_clear_bit(f: u8, m: u8)
    requires
        is_flag_mask(m),
    ensures
        (f & !m) & m == 0,
        (f & !m) & 0x0F == f & 0x0F,
        forall|k: u8| is_flag_mask(k) && k != m ==> #[trigger] ((f & !m) & k) == f & k,
{
    assert((f & !m) & m == 0) by (bit_vector);
    assert((f & !m) & 0x0F == f & 0x0F) by (bit_vector)
        requires
            m == 0x80 || m == 0x40 || m == 0x20 || m == 0x10,
    ;
    assert forall|k: u8| is_flag_mask(k) && k != m implies #[trigger] ((f & !m) & k) == f & k by {
        assert(((f & !m) & k) == f & k) by (bit_vector)
            requires
                m == 0x80 || m == 0x40 || m == 0x20 || m == 0x10,
                k == 0x80 || k == 0x40 || k == 0x20 || k == 0x10,
                k != m,
        ;
    }
}

/// A flag byte built from four flags reads back as those flags.
pub proof fn lemma_flags_byte(z: bool, n: bool, h: bool, c: bool)
    ensures
        (flags_byte(z, n, h, c) & 0x80 != 0) == z,
        (flags_byte(z, n, h, c) & 0x40 != 0) == n,
        (flags_byte(z, n, h, c) & 0x20 != 0) == h,
        (flags_byte(z, n, h, c) & 0x10 != 0) == c,
        flags_byte(z, n, h, c) & 0x0F == 0,
{
    let b = flags_byte(z, n, h, c);
    let zb: u8 = if z { 0x80 } else { 0 };
    let nb: u8 = if n { 0x40 } else { 0 };
    let hb: u8 = if h { 0x20 } else { 0 };
    let cb: u8 = if c { 0x10 } else { 0 };
    assert(b == zb + nb + hb + cb);
    assert((b & 0x80 != 0) == (zb == 0x80) && (b & 0x40 != 0) == (nb == 0x40) && (b & 0x20 != 0)
        == (hb == 0x20) && (b & 0x10 != 0) == (cb == 0x10) && b & 0x0F == 0) by (bit_vector)
        requires
            zb == 0x80 || zb == 0,
            nb == 0x40 || nb == 0,
            hb == 0x20 || hb == 0,
            cb == 0x10 || cb == 0,
            b == zb + nb + hb + cb,
    ;
}

/// Masking a byte with 0xF0 clears its lower nibble and keeps the upper.
pub proof fn lemma_high_nibble(b: u8)
    ensures
        b & 0xF0 == b / 16 * 16,
        (b & 0xF0) & 0x0F == 0,
{
    assert(b & 0xF0 == b / 16 * 16 && (b & 0xF0) & 0x0F == 0) by (bit_vector);
}

/// The two halves of a word, by shift and mask, are its quotient and
/// remainder by 256; joined again they give the word back.
pub proof fn lemma_word_halves(w: u16)
    ensures
        (w >> 8) == w / 256,
        (w & 0x00FF) == w % 256,
        (w >> 8) < 256,
{
    assert((w >> 8) == w / 256) by (bit_vector);
    assert((w & 0x00FF) == w % 256) by (bit_vector);
    assert((w >> 8) < 256) by (bit_vector);
}

/// Joining a high and a low byte by shift and or is `high * 256 + low`.
pub proof fn lemma_word_join(hi: u8, lo: u8)
    ensures
        ((hi as u16) << 8) | (lo as u16) == hi * 256 + lo,
{
    let h: u16 = hi as u16;
    let l: u16 = lo as u16;
    assert((h << 8) | l == h * 256 + l) by (bit_vector)
        requires
            h < 256,
            l < 256,
    ;
}

} // verus!
