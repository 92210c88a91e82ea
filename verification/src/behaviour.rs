//! What holds of the bus and of the instruction engine across several
//! operations: what memory keeps, how the stack pairs up, where a
//! relative jump lands, and when a change of the interrupt master
//! enable takes effect.

use vstd::prelude::*;
use crate::boot::boot_rom;
use crate::cartridge::mbc0::Mbc0;
use crate::cartridge::Cartridge;
use crate::cpu::{
    displacement, jr_target, port_addr, prev_addr, CpuError, CpuView, Step, ToggleStage,
};
use crate::alu::lemma_alu_wf;
use crate::instr::{
    instr_of, kind_of, prefix_instr_of, Condition, Instr, InstrKind, PrefixInstr,
};
use crate::mmu::{
    next_addr, word_of, BusError, MmuView, BOOT_END, HRAM_END, HRAM_START, IO_END, IO_START, RAM_END,
    RAM_START, ROM_END, VRAM_END, VRAM_START,
};
use crate::ppu::{REG_LY, VRAM_LOCKED_BYTE};
use crate::regs::Reg16;
use crate::timing::{lemma_advance_wf, lemma_at_most_one_frame};

verus! {

impl<C: Cartridge> MmuView<C> {
    /// Whether some backing store is bound to the address.
    pub open spec fn is_mapped(addr: u16) -> bool {
        ||| addr <= ROM_END
        ||| VRAM_START <= addr <= VRAM_END
        ||| RAM_START <= addr <= RAM_END
        ||| IO_START <= addr <= HRAM_END
    }

    /// Whether a byte written at the address is kept, so that the next
    /// read finds it there. Work RAM, high RAM and the I/O ports keep
    /// any byte, but for the read-only scanline register, which only
    /// "keeps" the value it shows anyway. Video memory keeps any byte
    /// while it is not locked; while it is locked the write is dropped
    /// and the read yields `VRAM_LOCKED_BYTE`, whatever was written.
    pub open spec fn keeps(self, addr: u16, data: u8) -> bool {
        ||| RAM_START <= addr <= RAM_END
        ||| HRAM_START <= addr <= HRAM_END
        ||| IO_START <= addr <= IO_END && (addr != REG_LY || data == self.ppu.ly)
        ||| VRAM_START <= addr <= VRAM_END && (!self.ppu.vram_locked() || data
            == VRAM_LOCKED_BYTE)
    }

    /// Whether both bytes of a word written at the address are kept.
    pub open spec fn keeps_word(self, addr: u16, data: u16) -> bool {
        self.keeps(addr, (data % 256) as u8) && self.keeps(next_addr(addr), (data / 256) as u8)
    }

    /// Whether the cartridge refuses every write to its program memory.
    pub open spec fn rom_is_read_only(self) -> bool {
        forall|addr: u16, data: u8| (#[trigger] self.cartridge.rom_written(addr, data)).is_err()
    }
}

/// A read succeeds exactly at the mapped addresses; at any other it
/// reports that address as unmapped.
pub proof fn lemma_read_mapped<C: Cartridge>(m: MmuView<C>, addr: u16)
    ensures
        m.read(addr).is_ok() <==> MmuView::<C>::is_mapped(addr),
        !MmuView::<C>::is_mapped(addr) ==> m.read(addr) == Err::<u8, BusError>(
            BusError::UnmappedAddress(addr),
        ),
{
}

/// A write keeps the bus well-formed, never switches the boot overlay
/// back on, and outside the mapped addresses is refused.
pub proof fn lemma_write<C: Cartridge>(m: MmuView<C>, addr: u16, data: u8)
    requires
        m.wf(),
    ensures
        m.write(addr, data) matches Ok(after) ==> after.wf() && (after.is_dmg ==> m.is_dmg),
        !MmuView::<C>::is_mapped(addr) ==> m.write(addr, data) == Err::<MmuView<C>, BusError>(
            BusError::UnmappedAddress(addr),
        ),
{
}

/// While the boot overlay is on, the bottom of the address space shows
/// the bootstrap program and not the cartridge; once it is off, the
/// cartridge.
pub proof fn lemma_boot_overlay<C: Cartridge>(m: MmuView<C>, addr: u16)
    requires
        m.wf(),
        addr <= BOOT_END,
    ensures
        m.is_dmg ==> m.read(addr) == Ok::<u8, BusError>(boot_rom()[addr as int]),
        !m.is_dmg ==> m.read(addr) == Ok::<u8, BusError>(m.cartridge.rom_at(addr)),
{
}

/// A byte that is kept reads back as it was written.
pub proof fn lemma_write_read<C: Cartridge>(m: MmuView<C>, addr: u16, data: u8)
    requires
        m.wf(),
        m.keeps(addr, data),
    ensures
        m.write(addr, data).is_ok(),
        m.write(addr, data).unwrap().read(addr) == Ok::<u8, BusError>(data),
{
}

/// On a cartridge with read-only program memory no other byte reads
/// back as it was written: the write is refused, or the read yields
/// something else.
pub proof fn lemma_write_read_only<C: Cartridge>(m: MmuView<C>, addr: u16, data: u8)
    requires
        m.wf(),
        m.rom_is_read_only(),
        !m.keeps(addr, data),
    ensures
        m.write(addr, data) matches Ok(after) ==> after.read(addr) != Ok::<u8, BusError>(data),
{
    assert(m.cartridge.rom_written(addr, data).is_err());
}

/// A word whose two bytes are kept reads back as it was written.
pub proof fn lemma_write_read_u16<C: Cartridge>(m: MmuView<C>, addr: u16, data: u16)
    requires
        m.wf(),
        m.keeps_word(addr, data),
    ensures
        m.write_u16(addr, data).1.is_ok(),
        m.write_u16(addr, data).0.wf(),
        m.write_u16(addr, data).0.read_u16(addr) == Ok::<u16, BusError>(data),
{
}

/// On a cartridge with read-only program memory no other word reads
/// back as it was written.
pub proof fn lemma_write_read_u16_only<C: Cartridge>(m: MmuView<C>, addr: u16, data: u16)
    requires
        m.wf(),
        m.rom_is_read_only(),
        !m.keeps_word(addr, data),
    ensures
        m.write_u16(addr, data).1.is_ok() ==> m.write_u16(addr, data).0.read_u16(addr)
            != Ok::<u16, BusError>(data),
{
    let lo = (data % 256) as u8;
    let hi = (data / 256) as u8;
    assert(m.cartridge.rom_written(addr, lo).is_err());
    if let Ok(first) = m.write(addr, lo) {
        assert(first.cartridge.rom_written(next_addr(addr), hi).is_err());
        if let Ok(second) = first.write(next_addr(addr), hi) {
            if let Ok(low) = second.read(addr) {
                if let Ok(high) = second.read(next_addr(addr)) {
                    assert(word_of(low, high) == data ==> low == lo && high == hi);
                }
            }
        }
    }
}

/// The stack pairs up: where the two bytes below the stack pointer
/// keep the word, a push followed by a pop returns the word that was
/// pushed, puts the stack pointer back where it was, and leaves the
/// other registers alone.
pub proof fn lemma_push_pop<C: Cartridge>(s: CpuView<C>, word: u16)
    requires
        s.wf(),
        s.mmu.keeps_word(prev_addr(prev_addr(s.regs.SP)), word),
    ensures
        s.stack_push_u16(word).1.is_ok(),
        s.stack_push_u16(word).0.stack_pop_u16().1 == Ok::<u16, BusError>(word),
        s.stack_push_u16(word).0.stack_pop_u16().0.regs == s.regs,
        s.stack_push_u16(word).0.stack_pop_u16().0.mmu == s.stack_push_u16(word).0.mmu,
{
    let sp = prev_addr(prev_addr(s.regs.SP));
    lemma_write_read_u16(s.mmu, sp, word);
}

/// And nowhere else, on a cartridge with read-only program memory:
/// where the two bytes below the stack pointer do not keep the word,
/// the push is refused or the pop returns another word.
pub proof fn lemma_push_pop_only<C: Cartridge>(s: CpuView<C>, word: u16)
    requires
        s.wf(),
        s.mmu.rom_is_read_only(),
        !s.mmu.keeps_word(prev_addr(prev_addr(s.regs.SP)), word),
    ensures
        s.stack_push_u16(word).1.is_ok() ==> s.stack_push_u16(word).0.stack_pop_u16().1
            != Ok::<u16, BusError>(word),
{
    let sp = prev_addr(prev_addr(s.regs.SP));
    lemma_write_read_u16_only(s.mmu, sp, word);
}

/// The direct-mapped cartridge has read-only program memory.
pub proof fn lemma_mbc0_read_only(m: MmuView<Mbc0>)
    ensures
        m.rom_is_read_only(),
{
}

/// What carrying out a byte does to the interrupt master enable and to
/// a pending change of it. A byte that stands for an instruction moves
/// the pending change one stage on, whatever the instruction is and
/// whether or not the bus refuses it part-way; the request itself then
/// arms a change if nothing is pending by then. A byte that stands for
/// no instruction moves nothing.
pub proof fn lemma_exec_mode<C: Cartridge>(s: CpuView<C>, opcode: u8)
    ensures
        instr_of(opcode).is_some() ==> s.exec_instr(opcode).0.interrupts
            == s.begin_instr().interrupts,
        instr_of(opcode).is_some() ==> s.exec_instr(opcode).0.mode_flags == (if instr_of(opcode)
            == Some(Instr::Di) {
            s.begin_instr().request_toggle().mode_flags
        } else {
            s.begin_instr().mode_flags
        }),
        instr_of(opcode).is_none() ==> s.exec_instr(opcode).0 == s,
{
}

/// The same of a whole step. Where the byte at the program counter can
/// be read and stands for an instruction, the pending change moves one
/// stage on and the request arms a new one; else the step fails and
/// moves nothing.
pub proof fn lemma_step_mode<C: Cartridge>(s: CpuView<C>)
    ensures
        s.at_instr() ==> s.step().0.interrupts == s.begin_instr().interrupts,
        s.at_instr() ==> s.step().0.mode_flags == (if s.mmu.read(s.regs.PC) == Ok::<u8, BusError>(
            0xF3,
        ) {
            s.begin_instr().request_toggle().mode_flags
        } else {
            s.begin_instr().mode_flags
        }),
        !s.at_instr() ==> s.step().1.is_err() && s.step().0.interrupts == s.interrupts
            && s.step().0.mode_flags == s.mode_flags,
{
    reveal(CpuView::step);
    match s.get_imu8() {
        (f, Ok(opcode)) => {
            lemma_exec_mode(f, opcode);
        },
        (f, Err(e)) => {},
    }
}

/// A request to change the interrupt master enable takes effect two
/// instructions late, and once. When nothing is pending and the next
/// instruction is the request, the enable still reads as before after
/// the request and after the instruction that follows it, whatever
/// that is; after the second instruction that follows it reads
/// flipped, and nothing is pending any more unless that instruction
/// was a request itself.
pub proof fn lemma_interrupt_latency<C: Cartridge>(s: CpuView<C>)
    requires
        s.mode_flags.change_intrpt_mode == ToggleStage::Idle,
        s.mmu.read(s.regs.PC) == Ok::<u8, BusError>(0xF3),
        s.step().0.at_instr(),
        s.step().0.step().0.at_instr(),
    ensures
        s.step().0.interrupts == s.interrupts,
        s.step().0.step().0.interrupts == s.interrupts,
        s.step().0.step().0.step().0.interrupts == !s.interrupts,
        s.step().0.step().0.mmu.read(s.step().0.step().0.regs.PC) != Ok::<u8, BusError>(0xF3)
            ==> s.step().0.step().0.step().0.mode_flags.change_intrpt_mode == ToggleStage::Idle,
{
    lemma_step_mode(s);
    let s1 = s.step().0;
    lemma_step_mode(s1);
    let s2 = s1.step().0;
    lemma_step_mode(s2);
}

/// While nothing is pending, an instruction other than the request
/// leaves the interrupt master enable as it is and nothing pending: a
/// change that took effect does not come back.
pub proof fn lemma_no_toggle_without_request<C: Cartridge>(s: CpuView<C>)
    requires
        s.mode_flags.change_intrpt_mode == ToggleStage::Idle,
        s.mmu.read(s.regs.PC) != Ok::<u8, BusError>(0xF3),
    ensures
        s.step().0.interrupts == s.interrupts,
        s.step().0.mode_flags.change_intrpt_mode == ToggleStage::Idle,
{
    lemma_step_mode(s);
}

/// A displacement reaches from -128 to 127. With displacement -2 (the
/// byte 0xFE) a relative jump lands on its own first byte: two bytes
/// back from the address just behind its two bytes.
pub proof fn lemma_jr_target(pc: u16, offset: u8)
    ensures
        -128 <= displacement(offset) <= 127,
        displacement(0xFE) == -2,
        jr_target(next_addr(next_addr(pc)), 0xFE) == pc,
{
}

/// Carrying out a relative jump: the instruction reads its
/// displacement, costs 8 cycles, and continues at the target if its
/// condition holds, else just behind itself. Nothing but the program
/// counter changes.
pub proof fn lemma_relative_jump<C: Cartridge>(s: CpuView<C>, condition: Condition, offset: u8)
    requires
        s.mmu.read(s.regs.PC) == Ok::<u8, BusError>(offset),
    ensures
        s.run_instr(Instr::Jr(condition)).1 == Ok::<u8, CpuError>(8),
        s.run_instr(Instr::Jr(condition)).0 == s.with_pc(
            if s.holds(condition) {
                jr_target(next_addr(s.regs.PC), offset)
            } else {
                next_addr(s.regs.PC)
            },
        ),
{
}

/// The unconditional relative jump as a whole instruction. With the
/// byte 0x18 at the program counter and the displacement behind it, one
/// step lands at the target; with displacement -2 the program counter
/// is back where it was, on the jump's first byte.
pub proof fn lemma_jump_back<C: Cartridge>(s: CpuView<C>, offset: u8)
    requires
        s.mmu.read(s.regs.PC) == Ok::<u8, BusError>(0x18),
        s.mmu.read(next_addr(s.regs.PC)) == Ok::<u8, BusError>(offset),
    ensures
        s.step().1.is_ok(),
        s.step().0.regs.PC == jr_target(next_addr(next_addr(s.regs.PC)), offset),
        offset == 0xFE ==> s.step().0.regs.PC == s.regs.PC,
{
    reveal(CpuView::step);
    let b = s.get_imu8().0.begin_instr();
    assert(b.mmu == s.mmu && b.regs.PC == next_addr(s.regs.PC));
    lemma_relative_jump(b, Condition::Always, offset);
    lemma_jr_target(s.regs.PC, offset);
}

/// Fetching keeps the engine well-formed.
pub proof fn lemma_fetch_wf<C: Cartridge>(s: CpuView<C>)
    requires
        s.wf(),
    ensures
        s.get_imu8().0.wf(),
        s.get_imu16().0.wf(),
{
}

/// A store keeps the engine well-formed, whether or not it goes through.
pub proof fn lemma_store_wf<C: Cartridge>(s: CpuView<C>, addr: u16, data: u8)
    requires
        s.wf(),
    ensures
        s.store(addr, data).0.wf(),
{
    lemma_write(s.mmu, addr, data);
}

/// An instruction that works on the registers alone keeps the engine
/// well-formed.
proof fn lemma_register_instr_wf<C: Cartridge>(s: CpuView<C>, instr: Instr)
    requires
        s.wf(),
        kind_of(instr) == InstrKind::Register,
    ensures
        s.run_instr(instr).0.wf(),
{
    let regs = s.regs;
    match instr {
        Instr::Inc(r) | Instr::Dec(r) | Instr::Xor(r) => {
            lemma_alu_wf(regs, regs.A, regs.r8(r), 0);
        },
        Instr::Rla => {
            lemma_alu_wf(regs, regs.A, regs.A, 0);
        },
        _ => {},
    }
}

/// An instruction that loads or stores keeps the engine well-formed.
proof fn lemma_memory_instr_wf<C: Cartridge>(s: CpuView<C>, instr: Instr)
    requires
        s.wf(),
        kind_of(instr) == InstrKind::Memory,
    ensures
        s.run_instr(instr).0.wf(),
{
    let regs = s.regs;
    lemma_fetch_wf(s);
    match instr {
        Instr::LdHlA | Instr::LdHlIncA | Instr::LdHlDecA => {
            lemma_store_wf(s, regs.r16(Reg16::HL), regs.A);
        },
        Instr::LdhCA => {
            lemma_store_wf(s, port_addr(regs.C), regs.A);
        },
        Instr::LdhImmA => {
            let (f, r) = s.get_imu8();
            if let Ok(offset) = r {
                lemma_store_wf(f, port_addr(offset), f.regs.A);
            }
        },
        Instr::LdImm16A => {
            let (f, r) = s.get_imu16();
            if let Ok(addr) = r {
                lemma_store_wf(f, addr, f.regs.A);
            }
        },
        Instr::CpImm => {
            let (f, r) = s.get_imu8();
            if let Ok(value) = r {
                lemma_alu_wf(f.regs, f.regs.A, value, 0);
            }
        },
        _ => {},
    }
}

/// An instruction that moves the program counter or the stack keeps the
/// engine well-formed, and so does an instruction of the second table.
proof fn lemma_control_instr_wf<C: Cartridge>(s: CpuView<C>, instr: Instr)
    requires
        s.wf(),
        kind_of(instr) == InstrKind::Control,
    ensures
        s.run_instr(instr).0.wf(),
{
    let regs = s.regs;
    lemma_fetch_wf(s);
    match instr {
        Instr::Prefix => {
            let (f, r) = s.get_imu8();
            if let Ok(opcode) = r {
                match prefix_instr_of(opcode) {
                    Some(PrefixInstr::Rl(reg)) => {
                        lemma_alu_wf(f.regs, f.regs.A, f.regs.r8(reg), 0);
                    },
                    Some(PrefixInstr::Bit(k, reg)) => {
                        lemma_alu_wf(f.regs, f.regs.A, f.regs.r8(reg), k);
                    },
                    None => {},
                }
            }
        },
        Instr::Push(r) => {
            lemma_push_wf(s, regs.r16(r));
        },
        Instr::Rst(_) => {
            lemma_push_wf(s, regs.PC);
        },
        Instr::Call => {
            let (f, r) = s.get_imu16();
            lemma_push_wf(f, f.regs.PC);
        },
        _ => {},
    }
}

/// Carrying out an instruction of the first table keeps the engine
/// well-formed, whether or not the instruction fails.
pub proof fn lemma_run_instr_wf<C: Cartridge>(s: CpuView<C>, instr: Instr)
    requires
        s.wf(),
    ensures
        s.run_instr(instr).0.wf(),
{
    match kind_of(instr) {
        InstrKind::Register => lemma_register_instr_wf(s, instr),
        InstrKind::Memory => lemma_memory_instr_wf(s, instr),
        InstrKind::Control => lemma_control_instr_wf(s, instr),
    }
}

/// A push keeps the engine well-formed, whether or not it goes through.
pub proof fn lemma_push_wf<C: Cartridge>(s: CpuView<C>, word: u16)
    requires
        s.wf(),
    ensures
        s.stack_push_u16(word).0.wf(),
{
    let sp = prev_addr(prev_addr(s.regs.SP));
    lemma_write(s.mmu, sp, (word % 256) as u8);
    if let Ok(first) = s.mmu.write(sp, (word % 256) as u8) {
        lemma_write(first, next_addr(sp), (word / 256) as u8);
    }
}

/// No instruction costs less than 4 cycles or more than 32.
pub proof fn lemma_run_instr_cost<C: Cartridge>(s: CpuView<C>, instr: Instr)
    ensures
        s.run_instr(instr).1 matches Ok(cost) ==> 4 <= cost <= 32,
{
}

/// Nor does a byte that is carried out.
pub proof fn lemma_cost_bounds<C: Cartridge>(s: CpuView<C>, opcode: u8)
    ensures
        s.exec_instr(opcode).1 matches Ok(cost) ==> 4 <= cost <= 32,
{
    if let Some(instr) = instr_of(opcode) {
        lemma_run_instr_cost(s.begin_instr(), instr);
    }
}

/// Carrying out an instruction keeps the engine well-formed, whether
/// or not the instruction fails: the lower nibble of the flag byte
/// stays zero and every store keeps its size.
pub proof fn lemma_exec_wf<C: Cartridge>(s: CpuView<C>, opcode: u8)
    requires
        s.wf(),
    ensures
        s.exec_instr(opcode).0.wf(),
{
    match instr_of(opcode) {
        Some(instr) => {
            lemma_run_instr_wf(s.begin_instr(), instr);
        },
        None => {},
    }
}

/// A step keeps the engine well-formed. When it succeeds its cost lies
/// between 4 and 32 cycles, which is less than `OAM_TIME`: so the
/// display controller cannot have completed more than one frame
/// meanwhile, and the step reports a frame exactly when there was one.
pub proof fn lemma_step<C: Cartridge>(s: CpuView<C>)
    requires
        s.wf(),
    ensures
        s.step().0.wf(),
        s.step().1.is_ok() == s.fetch_exec().1.is_ok(),
        s.step().1 matches Ok(step) ==> 4 <= step.cycles <= 32 && s.step().0.cycles == step.cycles,
        s.fetch_exec() matches (t, Ok(cost)) ==> {
            &&& t.mmu.ppu.advance(cost as nat).1 <= 1
            &&& s.step().1 == Ok::<Step, CpuError>(
                Step { cycles: cost, frame_ready: t.mmu.ppu.advance(cost as nat).1 == 1 },
            )
        },
{
    reveal(CpuView::step);
    match s.get_imu8() {
        (f, Ok(opcode)) => {
            lemma_cost_bounds(f, opcode);
            lemma_exec_wf(f, opcode);
            match f.exec_instr(opcode) {
                (t, Ok(cost)) => {
                    lemma_advance_wf(t.mmu.ppu, cost as nat);
                    lemma_at_most_one_frame(t.mmu.ppu, cost as nat);
                },
                (t, Err(e)) => {},
            }
        },
        (f, Err(e)) => {},
    }
}

} // verus!
