//! The register file: seven 8-bit registers, the flag byte, the stack
//! pointer and the program counter.

use vstd::prelude::*;
use crate::bits::{
    flags_byte, is_flag_mask, lemma_clear_bit, lemma_high_nibble, lemma_set_bit, lemma_word_halves,
    lemma_word_join,
};

verus! {

/// The processor's registers. `F` holds the four flags in its upper
/// nibble; its lower nibble is zero in every well-formed register file.
#[allow(non_snake_case)]
#[derive(Clone, Copy, Debug, PartialEq, Eq, Structural)]
pub struct Registers {
    pub A: u8,
    pub B: u8,
    pub C: u8,
    pub D: u8,
    pub E: u8,
    pub H: u8,
    pub L: u8,
    pub F: u8,
    pub SP: u16,
    pub PC: u16,
}

/// One of the four flags: zero (bit 7), subtract (bit 6), half-carry
/// (bit 5) and carry (bit 4) of `F`.
#[derive(Clone, Copy, Debug, PartialEq, Eq, Structural)]
pub enum FlagsMasks {
    Z,
    N,
    H,
    C,
}

/// One of the seven 8-bit registers.
#[derive(Clone, Copy, Debug, PartialEq, Eq, Structural)]
pub enum Reg8 {
    A,
    B,
    C,
    D,
    E,
    H,
    L,
}

/// One of the 16-bit registers that an instruction can name: a pair of
/// 8-bit registers, or the stack pointer.
#[derive(Clone, Copy, Debug, PartialEq, Eq, Structural)]
pub enum Reg16 {
    BC,
    DE,
    HL,
    SP,
}

impl FlagsMasks {
    /// The single bit of `F` that holds this flag.
    pub open spec fn bit(self) -> u8 {
        match self {
            FlagsMasks::Z => 0x80,
            FlagsMasks::N => 0x40,
            FlagsMasks::H => 0x20,
            FlagsMasks::C => 0x10,
        }
    }

    /// The mask of this flag within `F`.
    pub fn mask(self) -> (m: u8)
        ensures
            m == self.bit(),
            is_flag_mask(m),
    {
        match self {
            FlagsMasks::Z => 0x80,
            FlagsMasks::N => 0x40,
            FlagsMasks::H => 0x20,
            FlagsMasks::C => 0x10,
        }
    }
}

#[allow(non_snake_case)]
impl Registers {
    /// The lower nibble of `F` is zero.
    pub open spec fn wf(&self) -> bool {
        self.F & 0x0F == 0
    }

    /// Whether the given flag is set.
    pub open spec fn flag(&self, mask: FlagsMasks) -> bool {
        self.F & mask.bit() != 0
    }

    /// These registers with `F` replaced by the given four flags.
    pub open spec fn with_flags(self, z: bool, n: bool, h: bool, c: bool) -> Registers {
        Registers { F: flags_byte(z, n, h, c), ..self }
    }

    /// The register values at power-on.
    pub open spec fn power_on() -> Registers {
        Registers {
            A: 0x01,
            B: 0x00,
            C: 0x13,
            D: 0x00,
            E: 0xD8,
            H: 0x01,
            L: 0x4D,
            F: 0xB0,
            SP: 0xFFFE,
            PC: 0x0000,
        }
    }

    /// The registers at power-on: zero, half-carry and carry are set.
    pub fn new() -> (r: Self)
        ensures
            r == Registers::power_on(),
            r.wf(),
            r.flag(FlagsMasks::Z),
            !r.flag(FlagsMasks::N),
            r.flag(FlagsMasks::H),
            r.flag(FlagsMasks::C),
    {
        assert(0xB0u8 & 0x0F == 0 && 0xB0u8 & 0x80 != 0 && 0xB0u8 & 0x40 == 0 && 0xB0u8 & 0x20 != 0
            && 0xB0u8 & 0x10 != 0) by (bit_vector);
        Registers {
            A: 0x01,
            B: 0x00,
            C: 0x13,
            D: 0x00,
            E: 0xD8,
            H: 0x01,
            L: 0x4D,
            F: 0xB0,
            SP: 0xFFFE,
            PC: 0x0000,
        }
    }

    /// The pair AF: `A` in the high byte; in the low byte the four flags
    /// in the upper nibble and nothing in the lower.
    pub open spec fn af(&self) -> int {
        self.A * 256 + self.F / 16 * 16
    }

    /// The pair BC.
    pub open spec fn bc(&self) -> int {
        self.B * 256 + self.C
    }

    /// The pair DE.
    pub open spec fn de(&self) -> int {
        self.D * 256 + self.E
    }

    /// The pair HL.
    pub open spec fn hl(&self) -> int {
        self.H * 256 + self.L
    }

    /// Reads the pair AF.
    pub fn AF(&self) -> (r: u16)
        ensures
            r == self.af(),
    {
        proof {
            lemma_high_nibble(self.F);
            lemma_word_join(self.A, self.F & 0xF0);
        }
        ((self.A as u16) << 8) | ((self.F & 0xF0) as u16)
    }

    /// Reads the pair BC.
    pub fn BC(&self) -> (r: u16)
        ensures
            r == self.bc(),
    {
        proof {
            lemma_word_join(self.B, self.C);
        }
        ((self.B as u16) << 8) | (self.C as u16)
    }

    /// Reads the pair DE.
    pub fn DE(&self) -> (r: u16)
        ensures
            r == self.de(),
    {
        proof {
            lemma_word_join(self.D, self.E);
        }
        ((self.D as u16) << 8) | (self.E as u16)
    }

    /// Reads the pair HL.
    pub fn HL(&self) -> (r: u16)
        ensures
            r == self.hl(),
    {
        proof {
            lemma_word_join(self.H, self.L);
        }
        ((self.H as u16) << 8) | (self.L as u16)
    }

    /// Loads `A` from the high byte and the flags from the upper nibble of
    /// the low byte; the lower nibble of `data` is dropped.
    pub fn set_AF(&mut self, data: u16)
        ensures
            *final(self) == (Registers {
                A: (data / 256) as u8,
                F: ((data % 256) / 16 * 16) as u8,
                ..*old(self)
            }),
            final(self).wf(),
            final(self).af() == data / 16 * 16,
    {
        proof {
            lemma_word_halves(data);
            lemma_high_nibble((data & 0x00FF) as u8);
        }
        self.A = (data >> 8) as u8;
        self.F = ((data & 0x00FF) as u8) & 0xF0;
    }

    /// Loads the pair BC: the high byte into the first register, the
    /// low byte into the second.
    pub fn set_BC(&mut self, data: u16)
        ensures
            *final(self) == (Registers { B: (data / 256) as u8, C: (data % 256) as u8, ..*old(self) }),
            final(self).bc() == data,
    {
        proof {
            lemma_word_halves(data);
        }
        self.B = (data >> 8) as u8;
        self.C = (data & 0x00FF) as u8;
    }

    /// Loads the pair DE: the high byte into the first register, the
    /// low byte into the second.
    pub fn set_DE(&mut self, data: u16)
        ensures
            *final(self) == (Registers { D: (data / 256) as u8, E: (data % 256) as u8, ..*old(self) }),
            final(self).de() == data,
    {
        proof {
            lemma_word_halves(data);
        }
        self.D = (data >> 8) as u8;
        self.E = (data & 0x00FF) as u8;
    }

    /// Loads the pair HL: the high byte into the first register, the
    /// low byte into the second.
    pub fn set_HL(&mut self, data: u16)
        ensures
            *final(self) == (Registers { H: (data / 256) as u8, L: (data % 256) as u8, ..*old(self) }),
            final(self).hl() == data,
    {
        proof {
            lemma_word_halves(data);
        }
        self.H = (data >> 8) as u8;
        self.L = (data & 0x00FF) as u8;
    }

    /// Moves the program counter one byte on; after 0xFFFF comes 0x0000.
    pub fn inc_PC(&mut self)
        ensures
            *final(self) == (Registers { PC: ((old(self).PC + 1) % 0x1_0000) as u16, ..*old(self) }),
    {
        self.PC = self.PC.wrapping_add(1);
    }

    /// Reads one flag.
    pub fn get_flag(&self, mask: FlagsMasks) -> (r: bool)
        ensures
            r == self.flag(mask),
    {
        (self.F & mask.mask()) != 0
    }

    /// Sets or clears one flag. The other three flags, the lower nibble of
    /// `F` and every other register stay as they were.
    pub fn set_flag(&mut self, mask: FlagsMasks, active: bool)
        ensures
            *final(self) == (Registers {
                F: if active {
                    old(self).F | mask.bit()
                } else {
                    old(self).F & !mask.bit()
                },
                ..*old(self)
            }),
            final(self).flag(mask) == active,
            forall|other: FlagsMasks| other != mask ==> final(self).flag(other) == old(self).flag(other),
            final(self).F & 0x0F == old(self).F & 0x0F,
    {
        let m = mask.mask();
        proof {
            lemma_set_bit(self.F, m);
            lemma_clear_bit(self.F, m);
            assert forall|other: FlagsMasks| other != mask implies is_flag_mask(other.bit())
                && other.bit() != m by {}
        }
        if active {
            self.F |= m;
        } else {
            self.F &= !m;
        }
    }

    /// The value of an 8-bit register.
    pub open spec fn r8(&self, r: Reg8) -> u8 {
        match r {
            Reg8::A => self.A,
            Reg8::B => self.B,
            Reg8::C => self.C,
            Reg8::D => self.D,
            Reg8::E => self.E,
            Reg8::H => self.H,
            Reg8::L => self.L,
        }
    }

    /// These registers with one 8-bit register replaced.
    pub open spec fn with_r8(self, r: Reg8, v: u8) -> Registers {
        match r {
            Reg8::A => Registers { A: v, ..self },
            Reg8::B => Registers { B: v, ..self },
            Reg8::C => Registers { C: v, ..self },
            Reg8::D => Registers { D: v, ..self },
            Reg8::E => Registers { E: v, ..self },
            Reg8::H => Registers { H: v, ..self },
            Reg8::L => Registers { L: v, ..self },
        }
    }

    /// The value of a 16-bit register.
    pub open spec fn r16(&self, r: Reg16) -> u16 {
        match r {
            Reg16::BC => self.bc() as u16,
            Reg16::DE => self.de() as u16,
            Reg16::HL => self.hl() as u16,
            Reg16::SP => self.SP,
        }
    }

    /// These registers with one 16-bit register replaced.
    pub open spec fn with_r16(self, r: Reg16, v: u16) -> Registers {
        match r {
            Reg16::BC => Registers { B: (v / 256) as u8, C: (v % 256) as u8, ..self },
            Reg16::DE => Registers { D: (v / 256) as u8, E: (v % 256) as u8, ..self },
            Reg16::HL => Registers { H: (v / 256) as u8, L: (v % 256) as u8, ..self },
            Reg16::SP => Registers { SP: v, ..self },
        }
    }

    /// Reads an 8-bit register.
    pub fn get8(&self, r: Reg8) -> (v: u8)
        ensures
            v == self.r8(r),
    {
        match r {
            Reg8::A => self.A,
            Reg8::B => self.B,
            Reg8::C => self.C,
            Reg8::D => self.D,
            Reg8::E => self.E,
            Reg8::H => self.H,
            Reg8::L => self.L,
        }
    }

    /// Writes an 8-bit register.
    pub fn set8(&mut self, r: Reg8, v: u8)
        ensures
            *final(self) == old(self).with_r8(r, v),
    {
        match r {
            Reg8::A => self.A = v,
            Reg8::B => self.B = v,
            Reg8::C => self.C = v,
            Reg8::D => self.D = v,
            Reg8::E => self.E = v,
            Reg8::H => self.H = v,
            Reg8::L => self.L = v,
        }
    }

    /// Reads a 16-bit register.
    pub fn get16(&self, r: Reg16) -> (v: u16)
        ensures
            v == self.r16(r),
    {
        match r {
            Reg16::BC => self.BC(),
            Reg16::DE => self.DE(),
            Reg16::HL => self.HL(),
            Reg16::SP => self.SP,
        }
    }

    /// Writes a 16-bit register.
    pub fn set16(&mut self, r: Reg16, v: u16)
        ensures
            *final(self) == old(self).with_r16(r, v),
            final(self).r16(r) == v,
    {
        match r {
            Reg16::BC => self.set_BC(v),
            Reg16::DE => self.set_DE(v),
            Reg16::HL => self.set_HL(v),
            Reg16::SP => self.SP = v,
        }
    }
}

} // verus!
