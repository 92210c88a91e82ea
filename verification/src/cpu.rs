//! The instruction engine: it fetches an instruction through the bus,
//! carries it out on the registers and on memory, and lets the display
//! controller run for as many cycles as the instruction cost.

use vstd::prelude::*;
use crate::alu::{dec_value, inc_value};
use crate::cartridge::Cartridge;
use crate::instr::{
    classify, cost_of, decode, decode_prefix, instr_of, kind_of, prefix_cost_of, prefix_instr_of,
    Condition, Instr, InstrKind, PrefixInstr, PREFIX_OVERHEAD,
};
use crate::mmu::{next_addr, word_of, BusError, Mmu, MmuView, IO_START};
use crate::regs::{FlagsMasks, Reg16, Reg8, Registers};

verus! {

/// How far a requested change of the interrupt master enable has got.
#[derive(Clone, Copy, Debug, PartialEq, Eq, Structural)]
pub enum ToggleStage {
    /// Nothing is pending.
    Idle,
    /// Requested by the instruction that ran last.
    Armed,
    /// Takes effect when the next instruction begins.
    Due,
}

/// Changes of processor mode that wait for their moment.
#[derive(Clone, Copy, Debug, PartialEq, Eq, Structural)]
pub struct ModeChangeFlags {
    pub change_intrpt_mode: ToggleStage,
}

impl ModeChangeFlags {
    /// Nothing is pending.
    pub fn new() -> (flags: Self)
        ensures
            flags.change_intrpt_mode == ToggleStage::Idle,
    {
        ModeChangeFlags { change_intrpt_mode: ToggleStage::Idle }
    }
}

/// A byte that stands for no instruction, with what is needed to find
/// out why the program got there.
#[derive(Clone, Copy, Debug, PartialEq, Eq, Structural)]
pub struct DecodeError {
    /// The byte that could not be decoded.
    pub opcode: u8,
    /// Whether the byte came after the prefix, so that the second table
    /// was asked.
    pub prefixed: bool,
    /// The address of the byte.
    pub addr: u16,
    /// The registers at the moment of failure.
    pub regs: Registers,
}

/// Why an instruction could not be carried out.
#[derive(Clone, Copy, Debug, PartialEq, Eq, Structural)]
pub enum CpuError {
    /// The bus refused an access.
    Bus(BusError),
    /// The instruction could not be decoded.
    Decode(DecodeError),
}

/// What one instruction took.
#[derive(Clone, Copy, Debug, PartialEq, Eq, Structural)]
pub struct Step {
    /// The cost of the instruction, in cycles.
    pub cycles: u8,
    /// Whether the display controller completed a frame meanwhile.
    pub frame_ready: bool,
}

/// The address before `addr`; before 0x0000 comes 0xFFFF.
pub open spec fn prev_addr(addr: u16) -> u16 {
    if addr == 0 {
        0xFFFF
    } else {
        (addr - 1) as u16
    }
}

/// The displacement that a byte stands for: itself up to 127, and from
/// 128 on itself less 256.
pub open spec fn displacement(offset: u8) -> int {
    if offset < 128 {
        offset as int
    } else {
        offset - 256
    }
}

/// The target of a relative jump: the address `end` just behind the
/// jump instruction plus the displacement, modulo 0x10000.
pub open spec fn jr_target(end: u16, offset: u8) -> u16 {
    ((end + displacement(offset)) % 0x1_0000) as u16
}

/// The address of an I/O port.
pub open spec fn port_addr(offset: u8) -> u16 {
    (IO_START + offset) as u16
}

/// The instruction engine as a mathematical value.
pub struct CpuView<C> {
    pub regs: Registers,
    pub mode_flags: ModeChangeFlags,
    /// The interrupt master enable.
    pub interrupts: bool,
    /// The cost of the instruction that ran last.
    pub cycles: u8,
    pub mmu: MmuView<C>,
}

impl<C: Cartridge> CpuView<C> {
    /// The registers and the bus are well-formed.
    pub open spec fn wf(self) -> bool {
        self.regs.wf() && self.mmu.wf()
    }

    /// The engine at power-on around the given cartridge.
    pub open spec fn power_on(cartridge: C) -> CpuView<C> {
        CpuView {
            regs: Registers::power_on(),
            mode_flags: ModeChangeFlags { change_intrpt_mode: ToggleStage::Idle },
            interrupts: true,
            cycles: 0,
            mmu: MmuView::power_on(cartridge),
        }
    }

    pub open spec fn with_regs(self, regs: Registers) -> CpuView<C> {
        CpuView { regs, ..self }
    }

    pub open spec fn with_pc(self, pc: u16) -> CpuView<C> {
        CpuView { regs: Registers { PC: pc, ..self.regs }, ..self }
    }

    /// Whether a jump condition holds.
    pub open spec fn holds(self, condition: Condition) -> bool {
        match condition {
            Condition::Always => true,
            Condition::NotZero => !self.regs.flag(FlagsMasks::Z),
            Condition::Zero => self.regs.flag(FlagsMasks::Z),
        }
    }

    /// A pending change of the interrupt master enable moves one stage
    /// on: an armed one becomes due, a due one takes effect.
    pub open spec fn begin_instr(self) -> CpuView<C> {
        match self.mode_flags.change_intrpt_mode {
            ToggleStage::Idle => self,
            ToggleStage::Armed => CpuView {
                mode_flags: ModeChangeFlags { change_intrpt_mode: ToggleStage::Due },
                ..self
            },
            ToggleStage::Due => CpuView {
                mode_flags: ModeChangeFlags { change_intrpt_mode: ToggleStage::Idle },
                interrupts: !self.interrupts,
                ..self
            },
        }
    }

    /// A change of the interrupt master enable is requested. While an
    /// earlier request is pending the new one is absorbed by it.
    pub open spec fn request_toggle(self) -> CpuView<C> {
        match self.mode_flags.change_intrpt_mode {
            ToggleStage::Idle => CpuView {
                mode_flags: ModeChangeFlags { change_intrpt_mode: ToggleStage::Armed },
                ..self
            },
            _ => self,
        }
    }

    /// Reads the byte at the program counter and moves the program
    /// counter past it. A refused read changes nothing.
    pub open spec fn get_imu8(self) -> (CpuView<C>, Result<u8, BusError>) {
        match self.mmu.read(self.regs.PC) {
            Ok(value) => (self.with_pc(next_addr(self.regs.PC)), Ok(value)),
            Err(e) => (self, Err(e)),
        }
    }

    /// Reads the word at the program counter, low byte first, and moves
    /// the program counter past what was read.
    pub open spec fn get_imu16(self) -> (CpuView<C>, Result<u16, BusError>) {
        match self.get_imu8() {
            (s, Err(e)) => (s, Err(e)),
            (s, Ok(lo)) => match s.get_imu8() {
                (t, Err(e)) => (t, Err(e)),
                (t, Ok(hi)) => (t, Ok(word_of(lo, hi))),
            },
        }
    }

    /// Pushes a word: the stack pointer drops by two, then the word is
    /// written where it points. The stack pointer stays lowered when a
    /// write is refused.
    pub open spec fn stack_push_u16(self, data: u16) -> (CpuView<C>, Result<(), BusError>) {
        let sp = prev_addr(prev_addr(self.regs.SP));
        let (mmu, r) = self.mmu.write_u16(sp, data);
        (CpuView { regs: Registers { SP: sp, ..self.regs }, mmu, ..self }, r)
    }

    /// Pops a word: it is read where the stack pointer points, then the
    /// stack pointer rises by two. A refused read changes nothing.
    pub open spec fn stack_pop_u16(self) -> (CpuView<C>, Result<u16, BusError>) {
        match self.mmu.read_u16(self.regs.SP) {
            Ok(word) => (
                self.with_regs(Registers { SP: next_addr(next_addr(self.regs.SP)), ..self.regs }),
                Ok(word),
            ),
            Err(e) => (self, Err(e)),
        }
    }

    /// Stores a byte; a refused write changes nothing.
    pub open spec fn store(self, addr: u16, data: u8) -> (CpuView<C>, Result<(), BusError>) {
        match self.mmu.write(addr, data) {
            Ok(mmu) => (CpuView { mmu, ..self }, Ok(())),
            Err(e) => (self, Err(e)),
        }
    }

    /// Pushes the program counter and continues at `vector`.
    pub open spec fn rst(self, vector: u8) -> (CpuView<C>, Result<(), BusError>) {
        match self.stack_push_u16(self.regs.PC) {
            (s, Ok(())) => (s.with_pc(vector as u16), Ok(())),
            (s, Err(e)) => (s, Err(e)),
        }
    }

    /// Pops the program counter.
    pub open spec fn ret(self) -> (CpuView<C>, Result<(), BusError>) {
        match self.stack_pop_u16() {
            (s, Ok(addr)) => (s.with_pc(addr), Ok(())),
            (s, Err(e)) => (s, Err(e)),
        }
    }

    /// Reads the address to call, pushes the address behind it, which is
    /// where the call returns to, and continues at the address read.
    pub open spec fn call(self) -> (CpuView<C>, Result<(), BusError>) {
        match self.get_imu16() {
            (s, Ok(addr)) => match s.stack_push_u16(s.regs.PC) {
                (t, Ok(())) => (t.with_pc(addr), Ok(())),
                (t, Err(e)) => (t, Err(e)),
            },
            (s, Err(e)) => (s, Err(e)),
        }
    }

    /// The effect of an instruction of the second table, and its cost
    /// without the prefix overhead.
    pub open spec fn run_prefix_instr(self, instr: PrefixInstr) -> (CpuView<C>, u8) {
        let regs = self.regs;
        match instr {
            PrefixInstr::Rl(r) => (
                self.with_regs(regs.rl_spec(regs.r8(r)).with_r8(r, crate::alu::rl_value(regs.r8(r)))),
                prefix_cost_of(instr),
            ),
            PrefixInstr::Bit(k, r) => (
                self.with_regs(regs.bit_spec(regs.r8(r), k)),
                prefix_cost_of(instr),
            ),
        }
    }

    /// Carries out the byte `opcode` as an instruction of the second
    /// table. The program counter is behind the byte already.
    pub open spec fn exec_prefix_instr(self, opcode: u8) -> (CpuView<C>, Result<u8, CpuError>) {
        match prefix_instr_of(opcode) {
            Some(instr) => {
                let (s, cost) = self.run_prefix_instr(instr);
                (s, Ok(cost))
            },
            None => (
                self,
                Err(
                    CpuError::Decode(
                        DecodeError {
                            opcode,
                            prefixed: true,
                            addr: prev_addr(self.regs.PC),
                            regs: self.regs,
                        },
                    ),
                ),
            ),
        }
    }

    /// The effect of an instruction of the first table, and its cost.
    /// An instruction that the bus refuses part-way stops there: what
    /// it did before stays done.
    pub open spec fn run_instr(self, instr: Instr) -> (CpuView<C>, Result<u8, CpuError>) {
        let regs = self.regs;
        let cost = cost_of(instr);
        match instr {
            Instr::Nop => (self, Ok(cost)),
            Instr::Inc(r) => (
                self.with_regs(regs.inc_spec(regs.r8(r)).with_r8(r, inc_value(regs.r8(r)))),
                Ok(cost),
            ),
            Instr::Dec(r) => (
                self.with_regs(regs.dec_spec(regs.r8(r)).with_r8(r, dec_value(regs.r8(r)))),
                Ok(cost),
            ),
            Instr::LdImm(r) => match self.get_imu8() {
                (s, Ok(value)) => (s.with_regs(s.regs.with_r8(r, value)), Ok(cost)),
                (s, Err(e)) => (s, Err(CpuError::Bus(e))),
            },
            Instr::Ld(dst, src) => (self.with_regs(regs.with_r8(dst, regs.r8(src))), Ok(cost)),
            Instr::LdImm16(r) => match self.get_imu16() {
                (s, Ok(word)) => (s.with_regs(s.regs.with_r16(r, word)), Ok(cost)),
                (s, Err(e)) => (s, Err(CpuError::Bus(e))),
            },
            Instr::Inc16(r) => (
                self.with_regs(regs.with_r16(r, next_addr(regs.r16(r)))),
                Ok(cost),
            ),
            Instr::Rla => (
                self.with_regs(
                    regs.rl_spec(regs.A).with_r8(Reg8::A, crate::alu::rl_value(regs.A)),
                ),
                Ok(cost),
            ),
            Instr::Jr(condition) => match self.get_imu8() {
                (s, Ok(offset)) => (
                    if s.holds(condition) {
                        s.with_pc(jr_target(s.regs.PC, offset))
                    } else {
                        s
                    },
                    Ok(cost),
                ),
                (s, Err(e)) => (s, Err(CpuError::Bus(e))),
            },
            Instr::LdAFromDe => match self.mmu.read(regs.r16(Reg16::DE)) {
                Ok(value) => (self.with_regs(regs.with_r8(Reg8::A, value)), Ok(cost)),
                Err(e) => (self, Err(CpuError::Bus(e))),
            },
            Instr::LdHlA => match self.store(regs.r16(Reg16::HL), regs.A) {
                (s, Ok(())) => (s, Ok(cost)),
                (s, Err(e)) => (s, Err(CpuError::Bus(e))),
            },
            Instr::LdHlIncA => match self.store(regs.r16(Reg16::HL), regs.A) {
                (s, Ok(())) => (
                    s.with_regs(regs.with_r16(Reg16::HL, next_addr(regs.r16(Reg16::HL)))),
                    Ok(cost),
                ),
                (s, Err(e)) => (s, Err(CpuError::Bus(e))),
            },
            Instr::LdHlDecA => match self.store(regs.r16(Reg16::HL), regs.A) {
                (s, Ok(())) => (
                    s.with_regs(regs.with_r16(Reg16::HL, prev_addr(regs.r16(Reg16::HL)))),
                    Ok(cost),
                ),
                (s, Err(e)) => (s, Err(CpuError::Bus(e))),
            },
            Instr::Xor(r) => (self.with_regs(regs.xor_spec(regs.r8(r))), Ok(cost)),
            Instr::Pop(r) => match self.stack_pop_u16() {
                (s, Ok(word)) => (s.with_regs(s.regs.with_r16(r, word)), Ok(cost)),
                (s, Err(e)) => (s, Err(CpuError::Bus(e))),
            },
            Instr::Push(r) => match self.stack_push_u16(regs.r16(r)) {
                (s, Ok(())) => (s, Ok(cost)),
                (s, Err(e)) => (s, Err(CpuError::Bus(e))),
            },
            Instr::Jp => match self.get_imu16() {
                (s, Ok(addr)) => (s.with_pc(addr), Ok(cost)),
                (s, Err(e)) => (s, Err(CpuError::Bus(e))),
            },
            Instr::Call => match self.call() {
                (s, Ok(())) => (s, Ok(cost)),
                (s, Err(e)) => (s, Err(CpuError::Bus(e))),
            },
            Instr::Ret => match self.ret() {
                (s, Ok(())) => (s, Ok(cost)),
                (s, Err(e)) => (s, Err(CpuError::Bus(e))),
            },
            Instr::Rst(vector) => match self.rst(vector) {
                (s, Ok(())) => (s, Ok(cost)),
                (s, Err(e)) => (s, Err(CpuError::Bus(e))),
            },
            Instr::LdhImmA => match self.get_imu8() {
                (s, Ok(offset)) => match s.store(port_addr(offset), s.regs.A) {
                    (t, Ok(())) => (t, Ok(cost)),
                    (t, Err(e)) => (t, Err(CpuError::Bus(e))),
                },
                (s, Err(e)) => (s, Err(CpuError::Bus(e))),
            },
            Instr::LdhAImm => match self.get_imu8() {
                (s, Ok(offset)) => match s.mmu.read(port_addr(offset)) {
                    Ok(value) => (s.with_regs(s.regs.with_r8(Reg8::A, value)), Ok(cost)),
                    Err(e) => (s, Err(CpuError::Bus(e))),
                },
                (s, Err(e)) => (s, Err(CpuError::Bus(e))),
            },
            Instr::LdhCA => match self.store(port_addr(regs.C), regs.A) {
                (s, Ok(())) => (s, Ok(cost)),
                (s, Err(e)) => (s, Err(CpuError::Bus(e))),
            },
            Instr::LdImm16A => match self.get_imu16() {
                (s, Ok(addr)) => match s.store(addr, s.regs.A) {
                    (t, Ok(())) => (t, Ok(cost)),
                    (t, Err(e)) => (t, Err(CpuError::Bus(e))),
                },
                (s, Err(e)) => (s, Err(CpuError::Bus(e))),
            },
            Instr::Di => (self.request_toggle(), Ok(cost)),
            Instr::CpImm => match self.get_imu8() {
                (s, Ok(value)) => (s.with_regs(s.regs.compare_spec(s.regs.A, value)), Ok(cost)),
                (s, Err(e)) => (s, Err(CpuError::Bus(e))),
            },
            Instr::Prefix => match self.get_imu8() {
                (s, Ok(opcode)) => match s.exec_prefix_instr(opcode) {
                    (t, Ok(base)) => (t, Ok((base + PREFIX_OVERHEAD) as u8)),
                    (t, Err(e)) => (t, Err(e)),
                },
                (s, Err(e)) => (s, Err(CpuError::Bus(e))),
            },
        }
    }

    /// Carries out the byte `opcode` as an instruction of the first
    /// table. The program counter is behind the byte already. First a
    /// pending change of the interrupt master enable moves one stage on,
    /// then the instruction takes its effect. A byte that stands for no
    /// instruction is no instruction: it changes nothing, a pending
    /// change included, and is reported with its address and the
    /// registers.
    pub open spec fn exec_instr(self, opcode: u8) -> (CpuView<C>, Result<u8, CpuError>) {
        match instr_of(opcode) {
            Some(instr) => self.begin_instr().run_instr(instr),
            None => (
                self,
                Err(
                    CpuError::Decode(
                        DecodeError {
                            opcode,
                            prefixed: false,
                            addr: prev_addr(self.regs.PC),
                            regs: self.regs,
                        },
                    ),
                ),
            ),
        }
    }

    /// Whether the byte at the program counter can be read and stands
    /// for an instruction of the first table.
    pub open spec fn at_instr(self) -> bool {
        self.mmu.read(self.regs.PC) matches Ok(opcode) && instr_of(opcode).is_some()
    }

    /// Fetches the byte at the program counter and carries it out: the
    /// engine before the display controller has its turn, and the cost
    /// of the instruction. A refused fetch changes nothing.
    pub open spec fn fetch_exec(self) -> (CpuView<C>, Result<u8, CpuError>) {
        match self.get_imu8() {
            (s, Ok(opcode)) => s.exec_instr(opcode),
            (s, Err(e)) => (s, Err(CpuError::Bus(e))),
        }
    }

    /// One instruction from beginning to end: it is fetched and carried
    /// out, and the display controller runs for as many cycles as it
    /// cost. After a failure the display controller does not run.
    #[verifier::opaque]
    pub open spec fn step(self) -> (CpuView<C>, Result<Step, CpuError>) {
        match self.fetch_exec() {
            (t, Err(e)) => (t, Err(e)),
            (t, Ok(cost)) => {
                let (mmu, frames) = t.mmu.advance(cost as nat);
                (
                    CpuView { cycles: cost, mmu, ..t },
                    Ok(Step { cycles: cost, frame_ready: frames > 0 }),
                )
            },
        }
    }

    /// Up to `n` instructions, one after the other, until one of them
    /// completes a frame or fails: the state reached, and `Ok(true)` if
    /// a frame was completed, `Ok(false)` if the `n` instructions ran
    /// without one, or the failure.
    pub open spec fn run(self, n: nat) -> (CpuView<C>, Result<bool, CpuError>)
        decreases n,
    {
        if n == 0 {
            (self, Ok(false))
        } else {
            match self.step() {
                (s, Err(e)) => (s, Err(e)),
                (s, Ok(step)) => if step.frame_ready {
                    (s, Ok(true))
                } else {
                    s.run((n - 1) as nat)
                },
            }
        }
    }
}

/// Computes the target of a relative jump.
pub fn jr_dest(end: u16, offset: u8) -> (target: u16)
    ensures
        target == jr_target(end, offset),
{
    if offset < 128 {
        end.wrapping_add(offset as u16)
    } else {
        end.wrapping_sub(256 - offset as u16)
    }
}

/// The instruction engine. It owns the registers and the bus.
pub struct Cpu<C: Cartridge> {
    regs: Registers,
    mode_flags: ModeChangeFlags,
    interrupts: bool,
    cycles: u8,
    mmu: Mmu<C>,
}

impl<C: Cartridge> View for Cpu<C> {
    type V = CpuView<C>;

    closed spec fn view(&self) -> CpuView<C> {
        CpuView {
            regs: self.regs,
            mode_flags: self.mode_flags,
            interrupts: self.interrupts,
            cycles: self.cycles,
            mmu: self.mmu@,
        }
    }
}

impl<C: Cartridge> Cpu<C> {
    /// The engine's value is well-formed.
    pub open spec fn wf(&self) -> bool {
        self@.wf()
    }

    /// An engine at power-on around the given cartridge: the program
    /// counter at 0x0000, where the boot overlay begins, and interrupts
    /// enabled.
    pub fn new(cartridge: C) -> (cpu: Self)
        ensures
            cpu@ == CpuView::power_on(cartridge),
            cpu.wf(),
    {
        Cpu {
            regs: Registers::new(),
            mode_flags: ModeChangeFlags::new(),
            interrupts: true,
            cycles: 0,
            mmu: Mmu::new(cartridge),
        }
    }

    /// The registers.
    pub fn regs(&self) -> (regs: Registers)
        ensures
            regs == self@.regs,
    {
        self.regs
    }

    /// Replaces the registers.
    pub fn set_regs(&mut self, regs: Registers)
        requires
            old(self).wf(),
            regs.wf(),
        ensures
            final(self)@ == old(self)@.with_regs(regs),
            final(self).wf(),
    {
        self.regs = regs;
    }

    /// Whether interrupts are enabled at this moment.
    pub fn interrupts_enabled(&self) -> (enabled: bool)
        ensures
            enabled == self@.interrupts,
    {
        self.interrupts
    }

    /// The changes of mode that are pending.
    pub fn mode_flags(&self) -> (flags: ModeChangeFlags)
        ensures
            flags == self@.mode_flags,
    {
        self.mode_flags
    }

    /// The cost, in cycles, of the instruction that ran last.
    pub fn cycles(&self) -> (cycles: u8)
        ensures
            cycles == self@.cycles,
    {
        self.cycles
    }

    /// The bus.
    pub fn mmu(&self) -> (mmu: &Mmu<C>)
        ensures
            mmu@ == self@.mmu,
    {
        &self.mmu
    }

    /// The frame buffer of the display controller.
    pub fn frame(&self) -> (frame: &Vec<u32>)
        ensures
            frame@ == self@.mmu.ppu.frame,
    {
        self.mmu.ppu().frame()
    }

    /// Reads a byte through the bus.
    pub fn read(&self, addr: u16) -> (r: Result<u8, BusError>)
        requires
            self.wf(),
        ensures
            r == self@.mmu.read(addr),
    {
        self.mmu.read(addr)
    }

    /// Writes a byte through the bus; a refused write changes nothing.
    pub fn write(&mut self, addr: u16, data: u8) -> (r: Result<(), BusError>)
        requires
            old(self).wf(),
        ensures
            (final(self)@, r) == old(self)@.store(addr, data),
            final(self).wf(),
    {
        self.mmu.write(addr, data)
    }

    /// Moves a pending change of the interrupt master enable one stage on.
    fn begin_instr(&mut self)
        ensures
            final(self)@ == old(self)@.begin_instr(),
    {
        match self.mode_flags.change_intrpt_mode {
            ToggleStage::Idle => {},
            ToggleStage::Armed => {
                self.mode_flags.change_intrpt_mode = ToggleStage::Due;
            },
            ToggleStage::Due => {
                self.mode_flags.change_intrpt_mode = ToggleStage::Idle;
                self.interrupts = !self.interrupts;
            },
        }
    }

    /// Reads the byte at the program counter and steps past it.
    pub fn get_imu8(&mut self) -> (r: Result<u8, BusError>)
        requires
            old(self).wf(),
        ensures
            (final(self)@, r) == old(self)@.get_imu8(),
            final(self).wf(),
    {
        match self.mmu.read(self.regs.PC) {
            Ok(value) => {
                self.regs.inc_PC();
                Ok(value)
            },
            Err(e) => Err(e),
        }
    }

    /// Reads the word at the program counter and steps past it.
    pub fn get_imu16(&mut self) -> (r: Result<u16, BusError>)
        requires
            old(self).wf(),
        ensures
            (final(self)@, r) == old(self)@.get_imu16(),
            final(self).wf(),
    {
        match self.get_imu8() {
            Err(e) => Err(e),
            Ok(lo) => match self.get_imu8() {
                Err(e) => Err(e),
                Ok(hi) => {
                    proof {
                        crate::bits::lemma_word_join(hi, lo);
                    }
                    Ok(((hi as u16) << 8) | (lo as u16))
                },
            },
        }
    }

    /// Pushes a word onto the stack.
    pub fn stack_push_u16(&mut self, data: u16) -> (r: Result<(), BusError>)
        requires
            old(self).wf(),
        ensures
            (final(self)@, r) == old(self)@.stack_push_u16(data),
            final(self).wf(),
    {
        self.regs.SP = self.regs.SP.wrapping_sub(2);
        self.mmu.write_u16(self.regs.SP, data)
    }

    /// Pops a word off the stack.
    pub fn stack_pop_u16(&mut self) -> (r: Result<u16, BusError>)
        requires
            old(self).wf(),
        ensures
            (final(self)@, r) == old(self)@.stack_pop_u16(),
            final(self).wf(),
    {
        match self.mmu.read_u16(self.regs.SP) {
            Ok(word) => {
                self.regs.SP = self.regs.SP.wrapping_add(2);
                Ok(word)
            },
            Err(e) => Err(e),
        }
    }

    /// Restart: pushes the program counter and continues at `offset`.
    pub fn rst(&mut self, offset: u8) -> (r: Result<(), BusError>)
        requires
            old(self).wf(),
        ensures
            (final(self)@, r) == old(self)@.rst(offset),
            final(self).wf(),
    {
        match self.stack_push_u16(self.regs.PC) {
            Ok(()) => {
                self.regs.PC = offset as u16;
                Ok(())
            },
            Err(e) => Err(e),
        }
    }

    /// Return: pops the program counter.
    pub fn ret(&mut self) -> (r: Result<(), BusError>)
        requires
            old(self).wf(),
        ensures
            (final(self)@, r) == old(self)@.ret(),
            final(self).wf(),
    {
        match self.stack_pop_u16() {
            Ok(addr) => {
                self.regs.PC = addr;
                Ok(())
            },
            Err(e) => Err(e),
        }
    }

    /// Call: reads the target, pushes the address behind it and
    /// continues at the target.
    pub fn call(&mut self) -> (r: Result<(), BusError>)
        requires
            old(self).wf(),
        ensures
            (final(self)@, r) == old(self)@.call(),
            final(self).wf(),
    {
        match self.get_imu16() {
            Ok(addr) => match self.stack_push_u16(self.regs.PC) {
                Ok(()) => {
                    self.regs.PC = addr;
                    Ok(())
                },
                Err(e) => Err(e),
            },
            Err(e) => Err(e),
        }
    }

    /// Carries out a byte of the second table, which the program
    /// counter has passed already, and returns its cost without the
    /// prefix overhead.
    pub fn exec_prefix_instr(&mut self, instr: u8) -> (r: Result<u8, CpuError>)
        requires
            old(self).wf(),
        ensures
            (final(self)@, r) == old(self)@.exec_prefix_instr(instr),
            final(self).wf(),
    {
        match decode_prefix(instr) {
            Some(PrefixInstr::Rl(reg)) => {
                let value = self.regs.get8(reg);
                let res = self.regs.rl(value);
                self.regs.set8(reg, res);
                Ok(8)
            },
            Some(PrefixInstr::Bit(k, reg)) => {
                let value = self.regs.get8(reg);
                self.regs.bit(value, k);
                Ok(8)
            },
            None => Err(
                CpuError::Decode(
                    DecodeError {
                        opcode: instr,
                        prefixed: true,
                        addr: self.regs.PC.wrapping_sub(1),
                        regs: self.regs,
                    },
                ),
            ),
        }
    }

    /// Carries out an instruction that works on the registers alone.
    fn run_register_instr(&mut self, instr: Instr) -> (r: Result<u8, CpuError>)
        requires
            old(self).wf(),
            kind_of(instr) == InstrKind::Register,
        ensures
            (final(self)@, r) == old(self)@.run_instr(instr),
            final(self).wf(),
    {
        match instr {
            Instr::Nop => Ok(4),
            Instr::Inc(reg) => {
                let value = self.regs.get8(reg);
                let res = self.regs.inc_u8(value);
                self.regs.set8(reg, res);
                Ok(4)
            },
            Instr::Dec(reg) => {
                let value = self.regs.get8(reg);
                let res = self.regs.dec_u8(value);
                self.regs.set8(reg, res);
                Ok(4)
            },
            Instr::Ld(dst, src) => {
                let value = self.regs.get8(src);
                self.regs.set8(dst, value);
                Ok(4)
            },
            Instr::Inc16(reg) => {
                let value = self.regs.get16(reg).wrapping_add(1);
                self.regs.set16(reg, value);
                Ok(8)
            },
            Instr::Rla => {
                let value = self.regs.A;
                let res = self.regs.rl(value);
                self.regs.A = res;
                Ok(4)
            },
            Instr::Xor(reg) => {
                let value = self.regs.get8(reg);
                self.regs.xor(value);
                Ok(4)
            },
            Instr::Di => {
                match self.mode_flags.change_intrpt_mode {
                    ToggleStage::Idle => {
                        self.mode_flags.change_intrpt_mode = ToggleStage::Armed;
                    },
                    _ => {},
                }
                Ok(4)
            },
            _ => vstd::pervasive::unreached(),
        }
    }

    /// Carries out an instruction that loads or stores.
    fn run_memory_instr(&mut self, instr: Instr) -> (r: Result<u8, CpuError>)
        requires
            old(self).wf(),
            kind_of(instr) == InstrKind::Memory,
        ensures
            (final(self)@, r) == old(self)@.run_instr(instr),
            final(self).wf(),
    {
        match instr {
            Instr::LdImm(reg) => match self.get_imu8() {
                Ok(data) => {
                    self.regs.set8(reg, data);
                    Ok(8)
                },
                Err(e) => Err(CpuError::Bus(e)),
            },
            Instr::LdImm16(reg) => match self.get_imu16() {
                Ok(word) => {
                    self.regs.set16(reg, word);
                    Ok(12)
                },
                Err(e) => Err(CpuError::Bus(e)),
            },
            Instr::LdAFromDe => match self.mmu.read(self.regs.DE()) {
                Ok(value) => {
                    self.regs.A = value;
                    Ok(8)
                },
                Err(e) => Err(CpuError::Bus(e)),
            },
            Instr::LdHlA => match self.mmu.write(self.regs.HL(), self.regs.A) {
                Ok(()) => Ok(8),
                Err(e) => Err(CpuError::Bus(e)),
            },
            Instr::LdHlIncA => {
                let addr_write = self.regs.HL();
                match self.mmu.write(addr_write, self.regs.A) {
                    Ok(()) => {
                        self.regs.set_HL(addr_write.wrapping_add(1));
                        Ok(8)
                    },
                    Err(e) => Err(CpuError::Bus(e)),
                }
            },
            Instr::LdHlDecA => {
                let addr_write = self.regs.HL();
                match self.mmu.write(addr_write, self.regs.A) {
                    Ok(()) => {
                        self.regs.set_HL(addr_write.wrapping_sub(1));
                        Ok(8)
                    },
                    Err(e) => Err(CpuError::Bus(e)),
                }
            },
            Instr::LdhImmA => match self.get_imu8() {
                Ok(byte) => match self.mmu.write(IO_START + byte as u16, self.regs.A) {
                    Ok(()) => Ok(12),
                    Err(e) => Err(CpuError::Bus(e)),
                },
                Err(e) => Err(CpuError::Bus(e)),
            },
            Instr::LdhAImm => match self.get_imu8() {
                Ok(offset) => match self.mmu.read(IO_START + offset as u16) {
                    Ok(value) => {
                        self.regs.A = value;
                        Ok(12)
                    },
                    Err(e) => Err(CpuError::Bus(e)),
                },
                Err(e) => Err(CpuError::Bus(e)),
            },
            Instr::LdhCA => match self.mmu.write(IO_START + self.regs.C as u16, self.regs.A) {
                Ok(()) => Ok(8),
                Err(e) => Err(CpuError::Bus(e)),
            },
            Instr::LdImm16A => match self.get_imu16() {
                Ok(addr_write) => match self.mmu.write(addr_write, self.regs.A) {
                    Ok(()) => Ok(16),
                    Err(e) => Err(CpuError::Bus(e)),
                },
                Err(e) => Err(CpuError::Bus(e)),
            },
            Instr::CpImm => match self.get_imu8() {
                Ok(byte) => {
                    let a = self.regs.A;
                    self.regs.compare(a, byte);
                    Ok(8)
                },
                Err(e) => Err(CpuError::Bus(e)),
            },
            _ => vstd::pervasive::unreached(),
        }
    }

    /// Carries out an instruction that moves the program counter or the stack, or the prefix.
    fn run_control_instr(&mut self, instr: Instr) -> (r: Result<u8, CpuError>)
        requires
            old(self).wf(),
            kind_of(instr) == InstrKind::Control,
        ensures
            (final(self)@, r) == old(self)@.run_instr(instr),
            final(self).wf(),
    {
        match instr {
            Instr::Jr(condition) => match self.get_imu8() {
                Ok(offset) => {
                    let jmp_addr = jr_dest(self.regs.PC, offset);
                    let taken = match condition {
                        Condition::Always => true,
                        Condition::NotZero => !self.regs.get_flag(FlagsMasks::Z),
                        Condition::Zero => self.regs.get_flag(FlagsMasks::Z),
                    };
                    if taken {
                        self.regs.PC = jmp_addr;
                    }
                    Ok(8)
                },
                Err(e) => Err(CpuError::Bus(e)),
            },
            Instr::Pop(reg) => match self.stack_pop_u16() {
                Ok(word) => {
                    self.regs.set16(reg, word);
                    Ok(12)
                },
                Err(e) => Err(CpuError::Bus(e)),
            },
            Instr::Push(reg) => {
                let word = self.regs.get16(reg);
                match self.stack_push_u16(word) {
                    Ok(()) => Ok(16),
                    Err(e) => Err(CpuError::Bus(e)),
                }
            },
            Instr::Jp => match self.get_imu16() {
                Ok(addr) => {
                    self.regs.PC = addr;
                    Ok(16)
                },
                Err(e) => Err(CpuError::Bus(e)),
            },
            Instr::Call => match self.call() {
                Ok(()) => Ok(12),
                Err(e) => Err(CpuError::Bus(e)),
            },
            Instr::Ret => match self.ret() {
                Ok(()) => Ok(8),
                Err(e) => Err(CpuError::Bus(e)),
            },
            Instr::Rst(vector) => match self.rst(vector) {
                Ok(()) => Ok(32),
                Err(e) => Err(CpuError::Bus(e)),
            },
            Instr::Prefix => match self.get_imu8() {
                Ok(opcode) => match self.exec_prefix_instr(opcode) {
                    Ok(base) => Ok(base + PREFIX_OVERHEAD),
                    Err(e) => Err(e),
                },
                Err(e) => Err(CpuError::Bus(e)),
            },
            _ => vstd::pervasive::unreached(),
        }
    }

    /// Carries out an instruction of the first table and returns its
    /// cost. The program counter is behind its first byte already.
    pub fn run_instr(&mut self, instr: Instr) -> (r: Result<u8, CpuError>)
        requires
            old(self).wf(),
        ensures
            (final(self)@, r) == old(self)@.run_instr(instr),
            final(self).wf(),
    {
        match classify(instr) {
            InstrKind::Register => self.run_register_instr(instr),
            InstrKind::Memory => self.run_memory_instr(instr),
            InstrKind::Control => self.run_control_instr(instr),
        }
    }

    /// Carries out a byte of the first table, which the program counter
    /// has passed already, and returns its cost. A pending change of
    /// the interrupt master enable moves one stage on before the
    /// instruction takes its effect. A byte that stands for no
    /// instruction changes nothing and is reported with its address and
    /// the registers.
    pub fn exec_instr(&mut self, instr: u8) -> (r: Result<u8, CpuError>)
        requires
            old(self).wf(),
        ensures
            (final(self)@, r) == old(self)@.exec_instr(instr),
            instr_of(instr) matches Some(decoded) ==> (final(self)@, r)
                == old(self)@.begin_instr().run_instr(decoded),
            instr_of(instr).is_none() ==> final(self)@ == old(self)@ && r.is_err(),
            final(self).wf(),
    {
        match decode(instr) {
            Some(decoded) => {
                self.begin_instr();
                self.run_instr(decoded)
            },
            None => Err(
                CpuError::Decode(
                    DecodeError {
                        opcode: instr,
                        prefixed: false,
                        addr: self.regs.PC.wrapping_sub(1),
                        regs: self.regs,
                    },
                ),
            ),
        }
    }

    /// Runs one instruction: fetches it, carries it out and lets the
    /// display controller run for the cycles it cost.
    pub fn step(&mut self) -> (r: Result<Step, CpuError>)
        requires
            old(self).wf(),
        ensures
            (final(self)@, r) == old(self)@.step(),
            final(self).wf(),
    {
        proof {
            reveal(CpuView::step);
        }
        let instr = match self.get_imu8() {
            Ok(instr) => instr,
            Err(e) => {
                return Err(CpuError::Bus(e));
            },
        };
        match self.exec_instr(instr) {
            Ok(cost) => {
                self.cycles = cost;
                let frames = self.mmu.advance(cost as u32);
                Ok(Step { cycles: cost, frame_ready: frames > 0 })
            },
            Err(e) => Err(e),
        }
    }

    /// Runs instructions until one of them completes a frame or fails,
    /// but `max_steps` of them at most. Returns whether a frame was
    /// completed; the frame is then in the frame buffer.
    pub fn run(&mut self, max_steps: u32) -> (r: Result<bool, CpuError>)
        requires
            old(self).wf(),
        ensures
            (final(self)@, r) == old(self)@.run(max_steps as nat),
            final(self).wf(),
    {
        let ghost pre = self@;
        let mut left = max_steps;
        while left > 0
            invariant
                self.wf(),
                pre == old(self)@,
                pre.run(max_steps as nat) == self@.run(left as nat),
            decreases left,
        {
            match self.step() {
                Err(e) => {
                    return Err(e);
                },
                Ok(step) => {
                    if step.frame_ready {
                        return Ok(true);
                    }
                },
            }
            left = left - 1;
        }
        Ok(false)
    }
}

/// The six words of a register dump: the four pairs, the stack pointer
/// and the program counter.
#[derive(Clone, Copy, Debug, PartialEq, Eq, Structural)]
pub struct RegisterDump {
    pub af: u16,
    pub bc: u16,
    pub de: u16,
    pub hl: u16,
    pub sp: u16,
    pub pc: u16,
}

impl DecodeError {
    /// The registers at the moment of failure, paired up for display.
    pub fn dump(&self) -> (d: RegisterDump)
        ensures
            d.af == self.regs.af(),
            d.bc == self.regs.bc(),
            d.de == self.regs.de(),
            d.hl == self.regs.hl(),
            d.sp == self.regs.SP,
            d.pc == self.regs.PC,
    {
        RegisterDump {
            af: self.regs.AF(),
            bc: self.regs.BC(),
            de: self.regs.DE(),
            hl: self.regs.HL(),
            sp: self.regs.SP,
            pc: self.regs.PC,
        }
    }
}

} // verus!
