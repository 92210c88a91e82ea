//! The arithmetic and logic unit: 8-bit operations that work on the
//! accumulator or on a given byte and leave their verdict in the flags.

use vstd::prelude::*;
use crate::bits::{bit_is_set, lemma_flags_byte, test_bit};
use crate::regs::{FlagsMasks, Registers};

verus! {

/// `v` less one, where 0x00 wraps to 0xFF.
pub open spec fn dec_value(v: u8) -> u8 {
    if v == 0 {
        0xFF
    } else {
        (v - 1) as u8
    }
}

/// `v` plus one, where 0xFF wraps to 0x00.
pub open spec fn inc_value(v: u8) -> u8 {
    if v == 0xFF {
        0
    } else {
        (v + 1) as u8
    }
}

/// `a - b` modulo 256.
pub open spec fn sub_value(a: u8, b: u8) -> u8 {
    if a >= b {
        (a - b) as u8
    } else {
        (a + 256 - b) as u8
    }
}

/// `v` rotated left by one bit: bit 7 comes back in as bit 0.
pub open spec fn rl_value(v: u8) -> u8 {
    ((v * 2) % 256 + v / 128) as u8
}

/// Reading the four flags of registers whose `F` was built by `with_flags`.
pub proof fn lemma_with_flags(r: Registers, z: bool, n: bool, h: bool, c: bool)
    ensures
        r.with_flags(z, n, h, c).flag(FlagsMasks::Z) == z,
        r.with_flags(z, n, h, c).flag(FlagsMasks::N) == n,
        r.with_flags(z, n, h, c).flag(FlagsMasks::H) == h,
        r.with_flags(z, n, h, c).flag(FlagsMasks::C) == c,
        r.with_flags(z, n, h, c).wf(),
{
    lemma_flags_byte(z, n, h, c);
}

/// Whatever the unit is asked to do, it leaves the lower nibble of the
/// flag byte zero.
pub proof fn lemma_alu_wf(r: Registers, a: u8, v: u8, k: u8)
    ensures
        r.xor_spec(v).wf(),
        r.dec_spec(v).wf(),
        r.inc_spec(v).wf(),
        r.bit_spec(v, k).wf(),
        r.rl_spec(v).wf(),
        r.compare_spec(a, v).wf(),
{
    let c = r.flag(FlagsMasks::C);
    lemma_flags_byte((r.A ^ v) == 0, false, false, false);
    lemma_flags_byte(dec_value(v) == 0, true, v % 16 == 0, c);
    lemma_flags_byte(inc_value(v) == 0, false, v % 16 == 15, c);
    lemma_flags_byte(!bit_is_set(v, k), false, true, c);
    lemma_flags_byte(rl_value(v) == 0, false, false, v >= 128);
    lemma_flags_byte(a == v, true, a % 16 < v % 16, a < v);
}

#[allow(non_snake_case)]
impl Registers {
    /// The registers after `A ^= v`.
    pub open spec fn xor_spec(self, v: u8) -> Registers {
        (Registers { A: self.A ^ v, ..self }).with_flags(self.A ^ v == 0, false, false, false)
    }

    /// The registers after decrementing the byte `v`.
    pub open spec fn dec_spec(self, v: u8) -> Registers {
        self.with_flags(dec_value(v) == 0, true, v % 16 == 0, self.flag(FlagsMasks::C))
    }

    /// The registers after incrementing the byte `v`.
    pub open spec fn inc_spec(self, v: u8) -> Registers {
        self.with_flags(inc_value(v) == 0, false, v % 16 == 15, self.flag(FlagsMasks::C))
    }

    /// The registers after testing bit `k` of `v`.
    pub open spec fn bit_spec(self, v: u8, k: u8) -> Registers {
        self.with_flags(!bit_is_set(v, k), false, true, self.flag(FlagsMasks::C))
    }

    /// The registers after rotating the byte `v` left.
    pub open spec fn rl_spec(self, v: u8) -> Registers {
        self.with_flags(rl_value(v) == 0, false, false, v >= 128)
    }

    /// The registers after comparing `a` with `b`.
    pub open spec fn compare_spec(self, a: u8, b: u8) -> Registers {
        self.with_flags(a == b, true, a % 16 < b % 16, a < b)
    }

    /// Replaces all four flags at once.
    pub fn set_flags(&mut self, z: bool, n: bool, h: bool, c: bool)
        ensures
            *final(self) == old(self).with_flags(z, n, h, c),
            final(self).flag(FlagsMasks::Z) == z,
            final(self).flag(FlagsMasks::N) == n,
            final(self).flag(FlagsMasks::H) == h,
            final(self).flag(FlagsMasks::C) == c,
            final(self).wf(),
    {
        let mut f: u8 = 0;
        if z {
            f = f + 0x80;
        }
        if n {
            f = f + 0x40;
        }
        if h {
            f = f + 0x20;
        }
        if c {
            f = f + 0x10;
        }
        proof {
            lemma_with_flags(*self, z, n, h, c);
        }
        self.F = f;
    }

    /// Exclusive or of `reg` into the accumulator. Zero is set exactly
    /// when the result is 0; subtract, half-carry and carry are cleared.
    pub fn xor(&mut self, reg: u8)
        ensures
            *final(self) == old(self).xor_spec(reg),
            final(self).A == old(self).A ^ reg,
            final(self).flag(FlagsMasks::Z) == (final(self).A == 0),
            final(self).flag(FlagsMasks::Z) == (reg == old(self).A),
            !final(self).flag(FlagsMasks::N),
            !final(self).flag(FlagsMasks::H),
            !final(self).flag(FlagsMasks::C),
            final(self).wf(),
    {
        let a = self.A;
        proof {
            assert((a ^ reg == 0) == (reg == a)) by (bit_vector);
        }
        self.A = reg ^ self.A;
        proof {
            assert(reg ^ a == a ^ reg) by (bit_vector);
        }
        self.set_flags(self.A == 0, false, false, false);
    }

    /// Decrements a byte, wrapping 0x00 to 0xFF. Subtract is set, zero is
    /// set exactly when the result is 0, half-carry exactly when the low
    /// nibble borrowed, and carry is left alone.
    pub fn dec_u8(&mut self, reg: u8) -> (res: u8)
        ensures
            res == dec_value(reg),
            *final(self) == old(self).dec_spec(reg),
            final(self).flag(FlagsMasks::Z) == (res == 0),
            final(self).flag(FlagsMasks::N),
            final(self).flag(FlagsMasks::H) == (reg % 16 == 0),
            final(self).flag(FlagsMasks::C) == old(self).flag(FlagsMasks::C),
            reg == 0 ==> res == 0xFF && !final(self).flag(FlagsMasks::Z),
            final(self).wf(),
    {
        let res = reg.wrapping_sub(1);
        let c = self.get_flag(FlagsMasks::C);
        self.set_flags(res == 0, true, reg % 16 == 0, c);
        res
    }

    /// Increments a byte, wrapping 0xFF to 0x00. Subtract is cleared, zero
    /// is set exactly when the result is 0, half-carry exactly when the
    /// low nibble carried, and carry is left alone.
    pub fn inc_u8(&mut self, reg: u8) -> (res: u8)
        ensures
            res == inc_value(reg),
            *final(self) == old(self).inc_spec(reg),
            final(self).flag(FlagsMasks::Z) == (res == 0),
            !final(self).flag(FlagsMasks::N),
            final(self).flag(FlagsMasks::H) == (reg % 16 == 15),
            final(self).flag(FlagsMasks::C) == old(self).flag(FlagsMasks::C),
            final(self).wf(),
    {
        let res = reg.wrapping_add(1);
        let c = self.get_flag(FlagsMasks::C);
        self.set_flags(res == 0, false, reg % 16 == 15, c);
        res
    }

    /// Tests bit `nb_bit` of `regs`: zero is set exactly when the bit is
    /// clear, half-carry is set, subtract is cleared, carry is left alone.
    pub fn bit(&mut self, regs: u8, nb_bit: u8)
        requires
            nb_bit < 8,
        ensures
            *final(self) == old(self).bit_spec(regs, nb_bit),
            final(self).flag(FlagsMasks::Z) == !bit_is_set(regs, nb_bit),
            !final(self).flag(FlagsMasks::N),
            final(self).flag(FlagsMasks::H),
            final(self).flag(FlagsMasks::C) == old(self).flag(FlagsMasks::C),
            final(self).wf(),
    {
        let set = test_bit(regs, nb_bit);
        let c = self.get_flag(FlagsMasks::C);
        self.set_flags(!set, false, true, c);
    }

    /// Rotates a byte left by one bit. Bit 7 goes to carry and comes back
    /// in as bit 0; subtract and half-carry are cleared; zero is set
    /// exactly when the result is 0.
    pub fn rl(&mut self, reg: u8) -> (res: u8)
        ensures
            res == rl_value(reg),
            *final(self) == old(self).rl_spec(reg),
            final(self).flag(FlagsMasks::C) == (reg >= 128),
            !final(self).flag(FlagsMasks::N),
            !final(self).flag(FlagsMasks::H),
            final(self).flag(FlagsMasks::Z) == (res == 0),
            final(self).wf(),
    {
        proof {
            assert(((reg << 1) | (reg >> 7)) == (reg * 2) % 256 + reg / 128) by (bit_vector);
        }
        let res = (reg << 1) | (reg >> 7);
        self.set_flags(res == 0, false, false, reg >= 128);
        res
    }

    /// Compares `num1` with `num2` by subtracting without storing: the
    /// difference modulo 256 is returned and only the flags change.
    /// Subtract is set, zero exactly when the two are equal, carry exactly
    /// when `num1 < num2`, half-carry exactly when the low nibble borrowed.
    pub fn compare(&mut self, num1: u8, num2: u8) -> (res: u8)
        ensures
            res == sub_value(num1, num2),
            *final(self) == old(self).compare_spec(num1, num2),
            final(self).A == old(self).A,
            final(self).flag(FlagsMasks::Z) == (num1 == num2),
            final(self).flag(FlagsMasks::N),
            final(self).flag(FlagsMasks::H) == (num1 % 16 < num2 % 16),
            final(self).flag(FlagsMasks::C) == (num1 < num2),
            final(self).wf(),
    {
        let res = num1.wrapping_sub(num2);
        self.set_flags(num1 == num2, true, num1 % 16 < num2 % 16, num1 < num2);
        res
    }
}

} // verus!
