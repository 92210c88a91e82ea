//! The instruction set: which byte stands for which instruction, and
//! what each instruction costs.

use vstd::prelude::*;
use crate::regs::{Reg16, Reg8};

verus! {

/// The byte that announces an instruction of the second table.
pub const PREFIX: u8 = 0xCB;

/// Cycles that the prefix byte adds to an instruction of the second table.
pub const PREFIX_OVERHEAD: u8 = 4;

/// When a relative jump is taken.
#[derive(Clone, Copy, Debug, PartialEq, Eq, Structural)]
pub enum Condition {
    Always,
    /// While the zero flag is clear.
    NotZero,
    /// While the zero flag is set.
    Zero,
}

/// An instruction of the first table.
#[derive(Clone, Copy, Debug, PartialEq, Eq, Structural)]
pub enum Instr {
    /// Does nothing.
    Nop,
    /// Increments an 8-bit register.
    Inc(Reg8),
    /// Decrements an 8-bit register.
    Dec(Reg8),
    /// Loads an 8-bit register with the byte that follows.
    LdImm(Reg8),
    /// Copies the second register into the first.
    Ld(Reg8, Reg8),
    /// Loads a 16-bit register with the word that follows.
    LdImm16(Reg16),
    /// Increments a 16-bit register; no flag changes.
    Inc16(Reg16),
    /// Rotates the accumulator left.
    Rla,
    /// Jumps by the signed byte that follows, counted from the end of
    /// the instruction, if the condition holds.
    Jr(Condition),
    /// Loads the accumulator from the address in DE.
    LdAFromDe,
    /// Stores the accumulator at the address in HL.
    LdHlA,
    /// Stores the accumulator at the address in HL, then increments HL.
    LdHlIncA,
    /// Stores the accumulator at the address in HL, then decrements HL.
    LdHlDecA,
    /// Exclusive or of an 8-bit register into the accumulator.
    Xor(Reg8),
    /// Pops a 16-bit register off the stack.
    Pop(Reg16),
    /// Pushes a 16-bit register onto the stack.
    Push(Reg16),
    /// Jumps to the address that follows.
    Jp,
    /// Calls the address that follows.
    Call,
    /// Returns to the address on the stack.
    Ret,
    /// Calls the fixed address given here.
    Rst(u8),
    /// Stores the accumulator at 0xFF00 plus the byte that follows.
    LdhImmA,
    /// Loads the accumulator from 0xFF00 plus the byte that follows.
    LdhAImm,
    /// Stores the accumulator at 0xFF00 plus register C.
    LdhCA,
    /// Stores the accumulator at the address that follows.
    LdImm16A,
    /// Asks for the interrupt master enable to be flipped, two
    /// instructions from now.
    Di,
    /// Compares the accumulator with the byte that follows.
    CpImm,
    /// Announces an instruction of the second table.
    Prefix,
}

/// What an instruction works on.
#[derive(Clone, Copy, Debug, PartialEq, Eq, Structural)]
pub enum InstrKind {
    /// The registers alone.
    Register,
    /// The registers and memory, through the bus.
    Memory,
    /// The program counter or the stack; the prefix counts here too.
    Control,
}

/// An instruction of the second table.
#[derive(Clone, Copy, Debug, PartialEq, Eq, Structural)]
pub enum PrefixInstr {
    /// Rotates an 8-bit register left.
    Rl(Reg8),
    /// Tests the given bit of an 8-bit register.
    Bit(u8, Reg8),
}

/// The first table: the instruction that a byte stands for, if any.
pub open spec fn instr_of(opcode: u8) -> Option<Instr> {
    match opcode {
        0x00u8 => Some(Instr::Nop),
        0x04u8 => Some(Instr::Inc(Reg8::B)),
        0x05u8 => Some(Instr::Dec(Reg8::B)),
        0x06u8 => Some(Instr::LdImm(Reg8::B)),
        0x0Cu8 => Some(Instr::Inc(Reg8::C)),
        0x0Du8 => Some(Instr::Dec(Reg8::C)),
        0x0Eu8 => Some(Instr::LdImm(Reg8::C)),
        0x11u8 => Some(Instr::LdImm16(Reg16::DE)),
        0x13u8 => Some(Instr::Inc16(Reg16::DE)),
        0x17u8 => Some(Instr::Rla),
        0x18u8 => Some(Instr::Jr(Condition::Always)),
        0x1Au8 => Some(Instr::LdAFromDe),
        0x1Eu8 => Some(Instr::LdImm(Reg8::E)),
        0x20u8 => Some(Instr::Jr(Condition::NotZero)),
        0x21u8 => Some(Instr::LdImm16(Reg16::HL)),
        0x22u8 => Some(Instr::LdHlIncA),
        0x23u8 => Some(Instr::Inc16(Reg16::HL)),
        0x28u8 => Some(Instr::Jr(Condition::Zero)),
        0x2Eu8 => Some(Instr::LdImm(Reg8::L)),
        0x31u8 => Some(Instr::LdImm16(Reg16::SP)),
        0x32u8 => Some(Instr::LdHlDecA),
        0x3Du8 => Some(Instr::Dec(Reg8::A)),
        0x3Eu8 => Some(Instr::LdImm(Reg8::A)),
        0x4Fu8 => Some(Instr::Ld(Reg8::C, Reg8::A)),
        0x57u8 => Some(Instr::Ld(Reg8::D, Reg8::A)),
        0x67u8 => Some(Instr::Ld(Reg8::H, Reg8::A)),
        0x77u8 => Some(Instr::LdHlA),
        0x7Bu8 => Some(Instr::Ld(Reg8::A, Reg8::E)),
        0xAFu8 => Some(Instr::Xor(Reg8::A)),
        0xC1u8 => Some(Instr::Pop(Reg16::BC)),
        0xC3u8 => Some(Instr::Jp),
        0xC5u8 => Some(Instr::Push(Reg16::BC)),
        0xC9u8 => Some(Instr::Ret),
        0xCBu8 => Some(Instr::Prefix),
        0xCDu8 => Some(Instr::Call),
        0xDFu8 => Some(Instr::Rst(0x18)),
        0xE0u8 => Some(Instr::LdhImmA),
        0xE2u8 => Some(Instr::LdhCA),
        0xEAu8 => Some(Instr::LdImm16A),
        0xF0u8 => Some(Instr::LdhAImm),
        0xF3u8 => Some(Instr::Di),
        0xFEu8 => Some(Instr::CpImm),
        0xFFu8 => Some(Instr::Rst(0x36)),
        _ => None,
    }
}

/// The second table: the instruction that a byte after the prefix
/// stands for, if any.
pub open spec fn prefix_instr_of(opcode: u8) -> Option<PrefixInstr> {
    match opcode {
        0x11u8 => Some(PrefixInstr::Rl(Reg8::C)),
        0x7Cu8 => Some(PrefixInstr::Bit(7, Reg8::H)),
        _ => None,
    }
}

/// What an instruction of the first table costs, in cycles. For the
/// prefix this is the overhead alone; the instruction behind it adds
/// its own cost.
pub open spec fn cost_of(instr: Instr) -> u8 {
    match instr {
        Instr::Nop => 4,
        Instr::Inc(_) => 4,
        Instr::Dec(_) => 4,
        Instr::LdImm(_) => 8,
        Instr::Ld(_, _) => 4,
        Instr::LdImm16(_) => 12,
        Instr::Inc16(_) => 8,
        Instr::Rla => 4,
        Instr::Jr(_) => 8,
        Instr::LdAFromDe => 8,
        Instr::LdHlA => 8,
        Instr::LdHlIncA => 8,
        Instr::LdHlDecA => 8,
        Instr::Xor(_) => 4,
        Instr::Pop(_) => 12,
        Instr::Push(_) => 16,
        Instr::Jp => 16,
        Instr::Call => 12,
        Instr::Ret => 8,
        Instr::Rst(_) => 32,
        Instr::LdhImmA => 12,
        Instr::LdhAImm => 12,
        Instr::LdhCA => 8,
        Instr::LdImm16A => 16,
        Instr::Di => 4,
        Instr::CpImm => 8,
        Instr::Prefix => PREFIX_OVERHEAD,
    }
}

/// What an instruction of the second table costs, in cycles, without
/// the prefix overhead.
pub open spec fn prefix_cost_of(instr: PrefixInstr) -> u8 {
    match instr {
        PrefixInstr::Rl(_) => 8,
        PrefixInstr::Bit(_, _) => 8,
    }
}

/// The kind of an instruction.
pub open spec fn kind_of(instr: Instr) -> InstrKind {
    match instr {
        Instr::Nop => InstrKind::Register,
        Instr::Inc(_) => InstrKind::Register,
        Instr::Dec(_) => InstrKind::Register,
        Instr::Ld(_, _) => InstrKind::Register,
        Instr::Inc16(_) => InstrKind::Register,
        Instr::Rla => InstrKind::Register,
        Instr::Xor(_) => InstrKind::Register,
        Instr::Di => InstrKind::Register,
        Instr::LdImm(_) => InstrKind::Memory,
        Instr::LdImm16(_) => InstrKind::Memory,
        Instr::LdAFromDe => InstrKind::Memory,
        Instr::LdHlA => InstrKind::Memory,
        Instr::LdHlIncA => InstrKind::Memory,
        Instr::LdHlDecA => InstrKind::Memory,
        Instr::LdhImmA => InstrKind::Memory,
        Instr::LdhAImm => InstrKind::Memory,
        Instr::LdhCA => InstrKind::Memory,
        Instr::LdImm16A => InstrKind::Memory,
        Instr::CpImm => InstrKind::Memory,
        Instr::Jr(_) => InstrKind::Control,
        Instr::Pop(_) => InstrKind::Control,
        Instr::Push(_) => InstrKind::Control,
        Instr::Jp => InstrKind::Control,
        Instr::Call => InstrKind::Control,
        Instr::Ret => InstrKind::Control,
        Instr::Rst(_) => InstrKind::Control,
        Instr::Prefix => InstrKind::Control,
    }
}

/// Tells the kind of an instruction.
pub fn classify(instr: Instr) -> (kind: InstrKind)
    ensures
        kind == kind_of(instr),
{
    match instr {
        Instr::Nop => InstrKind::Register,
        Instr::Inc(_) => InstrKind::Register,
        Instr::Dec(_) => InstrKind::Register,
        Instr::Ld(_, _) => InstrKind::Register,
        Instr::Inc16(_) => InstrKind::Register,
        Instr::Rla => InstrKind::Register,
        Instr::Xor(_) => InstrKind::Register,
        Instr::Di => InstrKind::Register,
        Instr::LdImm(_) => InstrKind::Memory,
        Instr::LdImm16(_) => InstrKind::Memory,
        Instr::LdAFromDe => InstrKind::Memory,
        Instr::LdHlA => InstrKind::Memory,
        Instr::LdHlIncA => InstrKind::Memory,
        Instr::LdHlDecA => InstrKind::Memory,
        Instr::LdhImmA => InstrKind::Memory,
        Instr::LdhAImm => InstrKind::Memory,
        Instr::LdhCA => InstrKind::Memory,
        Instr::LdImm16A => InstrKind::Memory,
        Instr::CpImm => InstrKind::Memory,
        Instr::Jr(_) => InstrKind::Control,
        Instr::Pop(_) => InstrKind::Control,
        Instr::Push(_) => InstrKind::Control,
        Instr::Jp => InstrKind::Control,
        Instr::Call => InstrKind::Control,
        Instr::Ret => InstrKind::Control,
        Instr::Rst(_) => InstrKind::Control,
        Instr::Prefix => InstrKind::Control,
    }
}

/// Looks a byte up in the first table.
pub fn decode(opcode: u8) -> (instr: Option<Instr>)
    ensures
        instr == instr_of(opcode),
{
    match opcode {
        0x00 => Some(Instr::Nop),
        0x04 => Some(Instr::Inc(Reg8::B)),
        0x05 => Some(Instr::Dec(Reg8::B)),
        0x06 => Some(Instr::LdImm(Reg8::B)),
        0x0C => Some(Instr::Inc(Reg8::C)),
        0x0D => Some(Instr::Dec(Reg8::C)),
        0x0E => Some(Instr::LdImm(Reg8::C)),
        0x11 => Some(Instr::LdImm16(Reg16::DE)),
        0x13 => Some(Instr::Inc16(Reg16::DE)),
        0x17 => Some(Instr::Rla),
        0x18 => Some(Instr::Jr(Condition::Always)),
        0x1A => Some(Instr::LdAFromDe),
        0x1E => Some(Instr::LdImm(Reg8::E)),
        0x20 => Some(Instr::Jr(Condition::NotZero)),
        0x21 => Some(Instr::LdImm16(Reg16::HL)),
        0x22 => Some(Instr::LdHlIncA),
        0x23 => Some(Instr::Inc16(Reg16::HL)),
        0x28 => Some(Instr::Jr(Condition::Zero)),
        0x2E => Some(Instr::LdImm(Reg8::L)),
        0x31 => Some(Instr::LdImm16(Reg16::SP)),
        0x32 => Some(Instr::LdHlDecA),
        0x3D => Some(Instr::Dec(Reg8::A)),
        0x3E => Some(Instr::LdImm(Reg8::A)),
        0x4F => Some(Instr::Ld(Reg8::C, Reg8::A)),
        0x57 => Some(Instr::Ld(Reg8::D, Reg8::A)),
        0x67 => Some(Instr::Ld(Reg8::H, Reg8::A)),
        0x77 => Some(Instr::LdHlA),
        0x7B => Some(Instr::Ld(Reg8::A, Reg8::E)),
        0xAF => Some(Instr::Xor(Reg8::A)),
        0xC1 => Some(Instr::Pop(Reg16::BC)),
        0xC3 => Some(Instr::Jp),
        0xC5 => Some(Instr::Push(Reg16::BC)),
        0xC9 => Some(Instr::Ret),
        0xCB => Some(Instr::Prefix),
        0xCD => Some(Instr::Call),
        0xDF => Some(Instr::Rst(0x18)),
        0xE0 => Some(Instr::LdhImmA),
        0xE2 => Some(Instr::LdhCA),
        0xEA => Some(Instr::LdImm16A),
        0xF0 => Some(Instr::LdhAImm),
        0xF3 => Some(Instr::Di),
        0xFE => Some(Instr::CpImm),
        0xFF => Some(Instr::Rst(0x36)),
        _ => None,
    }
}

/// Looks a byte up in the second table.
pub fn decode_prefix(opcode: u8) -> (instr: Option<PrefixInstr>)
    ensures
        instr == prefix_instr_of(opcode),
{
    match opcode {
        0x11 => Some(PrefixInstr::Rl(Reg8::C)),
        0x7C => Some(PrefixInstr::Bit(7, Reg8::H)),
        _ => None,
    }
}

} // verus!
