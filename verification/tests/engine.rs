use gb_rs::cartridge::mbc0::Mbc0;
use gb_rs::cartridge::{new, CartridgeError};
use gb_rs::cpu::{jr_dest, Cpu, CpuError, DecodeError, ModeChangeFlags, Step, ToggleStage};
use gb_rs::instr::{
    classify, decode, decode_prefix, Condition, Instr, InstrKind, PrefixInstr, PREFIX,
    PREFIX_OVERHEAD,
};
use gb_rs::mmu::BusError;
use gb_rs::ppu::{LCDModes, COLOR_WHITE};
use gb_rs::regs::{FlagsMasks, Reg16, Reg8, Registers};

const START: u16 = 0x0100;

/// An engine whose cartridge holds `program` from 0x0100 on, about to run it.
fn engine(program: &[u8]) -> Cpu<Mbc0> {
    let mut rom = vec![0u8; 0x8000];
    rom[0x100..0x100 + program.len()].copy_from_slice(program);
    let mut cpu = Cpu::new(new(rom).ok().unwrap());
    let mut regs = cpu.regs();
    regs.PC = START;
    cpu.set_regs(regs);
    cpu
}

fn with_regs(cpu: &mut Cpu<Mbc0>, change: impl Fn(&mut Registers)) {
    let mut regs = cpu.regs();
    change(&mut regs);
    cpu.set_regs(regs);
}

fn quiet(cycles: u8) -> Result<Step, CpuError> {
    Ok(Step { cycles, frame_ready: false })
}

#[test]
fn power_on_state_of_the_engine() {
    let cpu = Cpu::new(new(vec![0u8; 0x8000]).ok().unwrap());
    assert_eq!(cpu.regs(), Registers::new());
    assert!(cpu.interrupts_enabled());
    assert_eq!(cpu.read(0x0000), Ok(0x31));
    assert_eq!(cpu.mmu().ppu().get_mode(), LCDModes::OAM);
    assert_eq!(cpu.frame().len(), 23040);
    assert_eq!(ModeChangeFlags::new().change_intrpt_mode, ToggleStage::Idle);
}

#[test]
fn first_table() {
    let known: [(u8, Instr); 43] = [
        (0x00, Instr::Nop),
        (0x04, Instr::Inc(Reg8::B)),
        (0x05, Instr::Dec(Reg8::B)),
        (0x06, Instr::LdImm(Reg8::B)),
        (0x0C, Instr::Inc(Reg8::C)),
        (0x0D, Instr::Dec(Reg8::C)),
        (0x0E, Instr::LdImm(Reg8::C)),
        (0x11, Instr::LdImm16(Reg16::DE)),
        (0x13, Instr::Inc16(Reg16::DE)),
        (0x17, Instr::Rla),
        (0x18, Instr::Jr(Condition::Always)),
        (0x1A, Instr::LdAFromDe),
        (0x1E, Instr::LdImm(Reg8::E)),
        (0x20, Instr::Jr(Condition::NotZero)),
        (0x21, Instr::LdImm16(Reg16::HL)),
        (0x22, Instr::LdHlIncA),
        (0x23, Instr::Inc16(Reg16::HL)),
        (0x28, Instr::Jr(Condition::Zero)),
        (0x2E, Instr::LdImm(Reg8::L)),
        (0x31, Instr::LdImm16(Reg16::SP)),
        (0x32, Instr::LdHlDecA),
        (0x3D, Instr::Dec(Reg8::A)),
        (0x3E, Instr::LdImm(Reg8::A)),
        (0x4F, Instr::Ld(Reg8::C, Reg8::A)),
        (0x57, Instr::Ld(Reg8::D, Reg8::A)),
        (0x67, Instr::Ld(Reg8::H, Reg8::A)),
        (0x77, Instr::LdHlA),
        (0x7B, Instr::Ld(Reg8::A, Reg8::E)),
        (0xAF, Instr::Xor(Reg8::A)),
        (0xC1, Instr::Pop(Reg16::BC)),
        (0xC3, Instr::Jp),
        (0xC5, Instr::Push(Reg16::BC)),
        (0xC9, Instr::Ret),
        (0xCB, Instr::Prefix),
        (0xCD, Instr::Call),
        (0xDF, Instr::Rst(0x18)),
        (0xE0, Instr::LdhImmA),
        (0xE2, Instr::LdhCA),
        (0xEA, Instr::LdImm16A),
        (0xF0, Instr::LdhAImm),
        (0xF3, Instr::Di),
        (0xFE, Instr::CpImm),
        (0xFF, Instr::Rst(0x36)),
    ];
    for opcode in 0..=0xFFu8 {
        let expected = known.iter().find(|(byte, _)| *byte == opcode).map(|(_, instr)| *instr);
        assert_eq!(decode(opcode), expected);
    }
    assert_eq!(PREFIX, 0xCB);
}

#[test]
fn second_table() {
    for opcode in 0..=0xFFu8 {
        let expected = match opcode {
            0x11 => Some(PrefixInstr::Rl(Reg8::C)),
            0x7C => Some(PrefixInstr::Bit(7, Reg8::H)),
            _ => None,
        };
        assert_eq!(decode_prefix(opcode), expected);
    }
    assert_eq!(PREFIX_OVERHEAD, 4);
}

#[test]
fn kinds_of_instructions() {
    assert_eq!(classify(Instr::Nop), InstrKind::Register);
    assert_eq!(classify(Instr::Xor(Reg8::A)), InstrKind::Register);
    assert_eq!(classify(Instr::Di), InstrKind::Register);
    assert_eq!(classify(Instr::LdImm(Reg8::B)), InstrKind::Memory);
    assert_eq!(classify(Instr::CpImm), InstrKind::Memory);
    assert_eq!(classify(Instr::LdHlA), InstrKind::Memory);
    assert_eq!(classify(Instr::Jr(Condition::Zero)), InstrKind::Control);
    assert_eq!(classify(Instr::Call), InstrKind::Control);
    assert_eq!(classify(Instr::Prefix), InstrKind::Control);
}

#[test]
fn nop_costs_four_cycles() {
    let mut cpu = engine(&[0x00]);
    let before = cpu.regs();
    assert_eq!(cpu.step(), quiet(4));
    assert_eq!(cpu.regs(), Registers { PC: 0x0101, ..before });
}

#[test]
fn loads_of_a_byte_that_follows() {
    let mut cpu = engine(&[0x06, 0x12, 0x0E, 0x34, 0x1E, 0x56, 0x2E, 0x78, 0x3E, 0x9A]);
    let before = cpu.regs();
    for _ in 0..5 {
        assert_eq!(cpu.step(), quiet(8));
    }
    assert_eq!(
        cpu.regs(),
        Registers { B: 0x12, C: 0x34, E: 0x56, L: 0x78, A: 0x9A, PC: 0x010A, ..before }
    );
}

#[test]
fn loads_of_a_word_that_follows() {
    let mut cpu = engine(&[0x11, 0x34, 0x12, 0x21, 0x78, 0x56, 0x31, 0xF0, 0xDF]);
    let before = cpu.regs();
    for _ in 0..3 {
        assert_eq!(cpu.step(), quiet(12));
    }
    assert_eq!(
        cpu.regs(),
        Registers { D: 0x12, E: 0x34, H: 0x56, L: 0x78, SP: 0xDFF0, PC: 0x0109, ..before }
    );
}

#[test]
fn moves_between_registers() {
    let mut cpu = engine(&[0x4F, 0x57, 0x67, 0x7B]);
    with_regs(&mut cpu, |r| {
        r.A = 0xA1;
        r.E = 0xE5;
    });
    let before = cpu.regs();
    for _ in 0..3 {
        assert_eq!(cpu.step(), quiet(4));
    }
    assert_eq!(cpu.regs(), Registers { C: 0xA1, D: 0xA1, H: 0xA1, PC: 0x0103, ..before });
    assert_eq!(cpu.step(), quiet(4));
    assert_eq!(cpu.regs().A, 0xE5);
}

#[test]
fn increments_and_decrements_of_registers() {
    let mut cpu = engine(&[0x04, 0x0C, 0x05, 0x0D, 0x3D]);
    with_regs(&mut cpu, |r| {
        r.A = 0x01;
        r.B = 0xFF;
        r.C = 0x0F;
        r.F = 0x10;
    });
    assert_eq!(cpu.step(), quiet(4));
    assert_eq!((cpu.regs().B, cpu.regs().F), (0x00, 0xB0));
    assert_eq!(cpu.step(), quiet(4));
    assert_eq!((cpu.regs().C, cpu.regs().F), (0x10, 0x30));
    assert_eq!(cpu.step(), quiet(4));
    assert_eq!((cpu.regs().B, cpu.regs().F), (0xFF, 0x70));
    assert_eq!(cpu.step(), quiet(4));
    assert_eq!((cpu.regs().C, cpu.regs().F), (0x0F, 0x70));
    assert_eq!(cpu.step(), quiet(4));
    assert_eq!((cpu.regs().A, cpu.regs().F), (0x00, 0xD0));
    assert_eq!(cpu.regs().PC, 0x0105);
}

#[test]
fn increments_of_pairs_leave_the_flags_alone() {
    let mut cpu = engine(&[0x13, 0x23, 0x13]);
    with_regs(&mut cpu, |r| {
        r.set_DE(0x00FF);
        r.set_HL(0xFFFF);
        r.F = 0xF0;
    });
    assert_eq!(cpu.step(), quiet(8));
    assert_eq!(cpu.regs().DE(), 0x0100);
    assert_eq!(cpu.step(), quiet(8));
    assert_eq!(cpu.regs().HL(), 0x0000);
    assert_eq!(cpu.step(), quiet(8));
    assert_eq!(cpu.regs().DE(), 0x0101);
    assert_eq!(cpu.regs().F, 0xF0);
}

#[test]
fn stores_through_hl() {
    let mut cpu = engine(&[0x77, 0x22, 0x32, 0x32]);
    with_regs(&mut cpu, |r| {
        r.A = 0x5A;
        r.set_HL(0xC000);
    });
    assert_eq!(cpu.step(), quiet(8));
    assert_eq!(cpu.read(0xC000), Ok(0x5A));
    assert_eq!(cpu.regs().HL(), 0xC000);
    with_regs(&mut cpu, |r| r.A = 0x5B);
    assert_eq!(cpu.step(), quiet(8));
    assert_eq!(cpu.read(0xC000), Ok(0x5B));
    assert_eq!(cpu.regs().HL(), 0xC001);
    with_regs(&mut cpu, |r| r.A = 0x5C);
    assert_eq!(cpu.step(), quiet(8));
    assert_eq!(cpu.read(0xC001), Ok(0x5C));
    assert_eq!(cpu.regs().HL(), 0xC000);
    with_regs(&mut cpu, |r| r.A = 0x5D);
    assert_eq!(cpu.step(), quiet(8));
    assert_eq!(cpu.read(0xC000), Ok(0x5D));
    assert_eq!(cpu.regs().HL(), 0xBFFF);
}

#[test]
fn load_through_de() {
    let mut cpu = engine(&[0x1A, 0x1A]);
    assert_eq!(cpu.write(0xC123, 0x77), Ok(()));
    with_regs(&mut cpu, |r| r.set_DE(0xC123));
    assert_eq!(cpu.step(), quiet(8));
    assert_eq!(cpu.regs().A, 0x77);
    with_regs(&mut cpu, |r| r.set_DE(0x0000));
    assert_eq!(cpu.step(), quiet(8));
    assert_eq!(cpu.regs().A, 0x31);
}

#[test]
fn port_addressing() {
    let mut cpu = engine(&[0xE0, 0x80, 0xE2, 0xF0, 0x81, 0xF0, 0x42, 0xE0, 0x47]);
    with_regs(&mut cpu, |r| {
        r.A = 0x3C;
        r.C = 0x81;
    });
    assert_eq!(cpu.step(), quiet(12));
    assert_eq!(cpu.read(0xFF80), Ok(0x3C));
    with_regs(&mut cpu, |r| r.A = 0x4D);
    assert_eq!(cpu.step(), quiet(8));
    assert_eq!(cpu.read(0xFF81), Ok(0x4D));
    with_regs(&mut cpu, |r| r.A = 0x00);
    assert_eq!(cpu.step(), quiet(12));
    assert_eq!(cpu.regs().A, 0x4D);
    assert_eq!(cpu.write(0xFF42, 0x64), Ok(()));
    assert_eq!(cpu.step(), quiet(12));
    assert_eq!(cpu.regs().A, 0x64);
    with_regs(&mut cpu, |r| r.A = 0xFC);
    assert_eq!(cpu.step(), quiet(12));
    assert_eq!(cpu.mmu().ppu().read_registers(0xFF47), Ok(0xFC));
    assert_eq!(cpu.regs().PC, 0x0109);
}

#[test]
fn store_at_an_address_that_follows() {
    let mut cpu = engine(&[0xEA, 0x10, 0x99]);
    with_regs(&mut cpu, |r| r.A = 0x19);
    assert_eq!(cpu.step(), quiet(16));
    assert_eq!(cpu.read(0x9910), Ok(0x19));
    assert_eq!(cpu.regs().PC, 0x0103);
}

#[test]
fn xor_of_the_accumulator_with_itself() {
    let mut cpu = engine(&[0xAF]);
    with_regs(&mut cpu, |r| {
        r.A = 0x5A;
        r.F = 0x70;
    });
    assert_eq!(cpu.step(), quiet(4));
    assert_eq!((cpu.regs().A, cpu.regs().F), (0x00, 0x80));
}

#[test]
fn compare_with_a_byte_that_follows() {
    let mut cpu = engine(&[0xFE, 0x90, 0xFE, 0x91, 0xFE, 0x34]);
    with_regs(&mut cpu, |r| r.A = 0x90);
    assert_eq!(cpu.step(), quiet(8));
    assert_eq!((cpu.regs().A, cpu.regs().F), (0x90, 0xC0));
    assert_eq!(cpu.step(), quiet(8));
    assert_eq!((cpu.regs().A, cpu.regs().F), (0x90, 0x70));
    assert_eq!(cpu.step(), quiet(8));
    assert_eq!((cpu.regs().A, cpu.regs().F), (0x90, 0x60));
    assert!(cpu.regs().get_flag(FlagsMasks::N));
}

#[test]
fn rotates() {
    let mut cpu = engine(&[0x17, 0xCB, 0x11, 0x17]);
    with_regs(&mut cpu, |r| {
        r.A = 0x80;
        r.C = 0x41;
        r.F = 0xE0;
    });
    assert_eq!(cpu.step(), quiet(4));
    assert_eq!((cpu.regs().A, cpu.regs().F), (0x01, 0x10));
    assert_eq!(cpu.step(), quiet(12));
    assert_eq!((cpu.regs().C, cpu.regs().F), (0x82, 0x00));
    assert_eq!(cpu.regs().PC, 0x0103);
    with_regs(&mut cpu, |r| r.A = 0x00);
    assert_eq!(cpu.step(), quiet(4));
    assert_eq!((cpu.regs().A, cpu.regs().F), (0x00, 0x80));
}

#[test]
fn bit_test_of_h() {
    let mut cpu = engine(&[0xCB, 0x7C, 0xCB, 0x7C]);
    with_regs(&mut cpu, |r| {
        r.H = 0x9F;
        r.F = 0x50;
    });
    assert_eq!(cpu.step(), quiet(12));
    assert_eq!((cpu.regs().H, cpu.regs().F), (0x9F, 0x30));
    with_regs(&mut cpu, |r| r.H = 0x7F);
    assert_eq!(cpu.step(), quiet(12));
    assert_eq!((cpu.regs().H, cpu.regs().F), (0x7F, 0xB0));
    assert_eq!(cpu.regs().PC, 0x0104);
}

#[test]
fn absolute_jump() {
    let mut cpu = engine(&[0xC3, 0x34, 0x12]);
    let before = cpu.regs();
    assert_eq!(cpu.step(), quiet(16));
    assert_eq!(cpu.regs(), Registers { PC: 0x1234, ..before });
}

#[test]
fn relative_jump_targets() {
    assert_eq!(jr_dest(0x0102, 0xFE), 0x0100);
    assert_eq!(jr_dest(0x0102, 0x00), 0x0102);
    assert_eq!(jr_dest(0x0102, 0x05), 0x0107);
    assert_eq!(jr_dest(0x0102, 0x7F), 0x0181);
    assert_eq!(jr_dest(0x0102, 0x80), 0x0082);
    assert_eq!(jr_dest(0x0102, 0xFF), 0x0101);
    assert_eq!(jr_dest(0x000C, 0xFB), 0x0007);
    assert_eq!(jr_dest(0xFFFF, 0x7F), 0x007E);
    assert_eq!(jr_dest(0x0001, 0x80), 0xFF81);
}

#[test]
fn relative_jump_by_minus_two_lands_on_itself() {
    let mut cpu = engine(&[0x18, 0xFE]);
    let before = cpu.regs();
    for _ in 0..3 {
        assert_eq!(cpu.step(), quiet(8));
        assert_eq!(cpu.regs(), before);
        assert_eq!(cpu.regs().PC, START);
    }
}

#[test]
fn relative_jump_counts_from_the_end_of_the_instruction() {
    let mut cpu = engine(&[0x18, 0x05]);
    assert_eq!(cpu.step(), quiet(8));
    assert_eq!(cpu.regs().PC, 0x0107);
    let mut cpu = engine(&[0x18, 0x00]);
    assert_eq!(cpu.step(), quiet(8));
    assert_eq!(cpu.regs().PC, 0x0102);
    let mut cpu = engine(&[0x18, 0x80]);
    assert_eq!(cpu.step(), quiet(8));
    assert_eq!(cpu.regs().PC, 0x0082);
}

#[test]
fn relative_jump_wraps_around_the_address_space() {
    let mut cpu = engine(&[]);
    assert_eq!(cpu.write(0xFFFD, 0x18), Ok(()));
    assert_eq!(cpu.write(0xFFFE, 0x7F), Ok(()));
    with_regs(&mut cpu, |r| r.PC = 0xFFFD);
    assert_eq!(cpu.step(), quiet(8));
    assert_eq!(cpu.regs().PC, 0x007E);
}

#[test]
fn conditional_relative_jumps() {
    for (opcode, zero, taken) in [
        (0x20u8, false, true),
        (0x20, true, false),
        (0x28, true, true),
        (0x28, false, false),
    ] {
        let mut cpu = engine(&[opcode, 0x10]);
        with_regs(&mut cpu, |r| r.set_flags(zero, false, false, false));
        let before = cpu.regs();
        assert_eq!(cpu.step(), quiet(8));
        let target = if taken { 0x0112 } else { 0x0102 };
        assert_eq!(cpu.regs(), Registers { PC: target, ..before });
    }
}

#[test]
fn push_then_pop_gives_the_word_back() {
    let mut cpu = engine(&[]);
    for word in [0x0000u16, 0x0001, 0x00FF, 0x0100, 0x1234, 0xBEEF, 0xFFFF] {
        let before = cpu.regs();
        assert_eq!(cpu.stack_push_u16(word), Ok(()));
        assert_eq!(cpu.regs().SP, 0xFFFC);
        assert_eq!(cpu.read(0xFFFC), Ok((word & 0xFF) as u8));
        assert_eq!(cpu.read(0xFFFD), Ok((word >> 8) as u8));
        assert_eq!(cpu.stack_pop_u16(), Ok(word));
        assert_eq!(cpu.regs(), before);
    }
}

#[test]
fn push_then_pop_for_every_word_and_many_stacks() {
    let mut cpu = engine(&[]);
    for sp in [0xFFFEu16, 0xFFFF, 0xE000, 0xC002, 0xD123, 0xFF82, 0xFF02, 0xFF44, 0xA000, 0x8002] {
        with_regs(&mut cpu, |r| r.SP = sp);
        for word in (0..=0xFFFFu16).step_by(251) {
            assert_eq!(cpu.stack_push_u16(word), Ok(()));
            assert_eq!(cpu.regs().SP, sp.wrapping_sub(2));
            assert_eq!(cpu.stack_pop_u16(), Ok(word));
            assert_eq!(cpu.regs().SP, sp);
        }
    }
}

#[test]
fn the_stack_needs_memory_that_keeps_bytes() {
    let mut cpu = engine(&[]);
    with_regs(&mut cpu, |r| r.SP = 0x0002);
    assert_eq!(
        cpu.stack_push_u16(0xBEEF),
        Err(BusError::Cartridge(CartridgeError::ReadOnlyViolation))
    );
    assert_eq!(cpu.regs().SP, 0x0000);
    with_regs(&mut cpu, |r| r.SP = 0xFF46);
    assert_eq!(cpu.stack_push_u16(0xBEEF), Ok(()));
    assert_eq!(cpu.stack_pop_u16(), Ok(0xBE00));
    assert_eq!(cpu.regs().SP, 0xFF46);
    with_regs(&mut cpu, |r| r.SP = 0xE001);
    assert_eq!(cpu.stack_push_u16(0xBEEF), Err(BusError::UnmappedAddress(0xE000)));
    assert_eq!(cpu.regs().SP, 0xDFFF);
    assert_eq!(cpu.read(0xDFFF), Ok(0xEF));
    with_regs(&mut cpu, |r| r.SP = 0xE000);
    assert_eq!(cpu.stack_pop_u16(), Err(BusError::UnmappedAddress(0xE000)));
    assert_eq!(cpu.regs().SP, 0xE000);
}

#[test]
fn push_and_pop_instructions() {
    let mut cpu = engine(&[0xC5, 0x06, 0x00, 0x0E, 0x00, 0xC1]);
    with_regs(&mut cpu, |r| r.set_BC(0x1234));
    let before = cpu.regs();
    assert_eq!(cpu.step(), quiet(16));
    assert_eq!(cpu.regs().SP, 0xFFFC);
    assert_eq!(cpu.mmu().read_u16(0xFFFC), Ok(0x1234));
    assert_eq!(cpu.step(), quiet(8));
    assert_eq!(cpu.step(), quiet(8));
    assert_eq!(cpu.regs().BC(), 0x0000);
    assert_eq!(cpu.step(), quiet(12));
    assert_eq!(cpu.regs(), Registers { PC: 0x0106, ..before });
}

#[test]
fn call_pushes_the_address_behind_its_operand() {
    let mut program = vec![0u8; 0x200];
    program[0] = 0xCD;
    program[1] = 0x80;
    program[2] = 0x01;
    program[0x80] = 0xC9;
    let mut cpu = engine(&program);
    let before = cpu.regs();
    assert_eq!(cpu.step(), quiet(12));
    assert_eq!(cpu.regs(), Registers { PC: 0x0180, SP: 0xFFFC, ..before });
    assert_eq!(cpu.mmu().read_u16(0xFFFC), Ok(0x0103));
    assert_eq!(cpu.step(), quiet(8));
    assert_eq!(cpu.regs(), Registers { PC: 0x0103, ..before });
}

#[test]
fn call_and_return_by_their_own_functions() {
    let mut cpu = engine(&[0x34, 0x12]);
    assert_eq!(cpu.call(), Ok(()));
    assert_eq!(cpu.regs().PC, 0x1234);
    assert_eq!(cpu.regs().SP, 0xFFFC);
    assert_eq!(cpu.mmu().read_u16(0xFFFC), Ok(0x0102));
    assert_eq!(cpu.ret(), Ok(()));
    assert_eq!(cpu.regs().PC, 0x0102);
    assert_eq!(cpu.regs().SP, 0xFFFE);
}

#[test]
fn restarts_push_the_program_counter() {
    for (opcode, vector) in [(0xDFu8, 0x0018u16), (0xFF, 0x0036)] {
        let mut cpu = engine(&[opcode]);
        let before = cpu.regs();
        assert_eq!(cpu.step(), quiet(32));
        assert_eq!(cpu.regs(), Registers { PC: vector, SP: 0xFFFC, ..before });
        assert_eq!(cpu.mmu().read_u16(0xFFFC), Ok(0x0101));
    }
    let mut cpu = engine(&[]);
    assert_eq!(cpu.rst(0x18), Ok(()));
    assert_eq!(cpu.regs().PC, 0x0018);
    assert_eq!(cpu.stack_pop_u16(), Ok(0x0100));
}

#[test]
fn fetching_bytes_and_words() {
    let mut cpu = engine(&[0x11, 0x22, 0x33]);
    assert_eq!(cpu.get_imu8(), Ok(0x11));
    assert_eq!(cpu.regs().PC, 0x0101);
    assert_eq!(cpu.get_imu16(), Ok(0x3322));
    assert_eq!(cpu.regs().PC, 0x0103);
    with_regs(&mut cpu, |r| r.PC = 0x3FFF);
    assert_eq!(cpu.get_imu16(), Err(BusError::UnmappedAddress(0x4000)));
    assert_eq!(cpu.regs().PC, 0x4000);
    assert_eq!(cpu.get_imu8(), Err(BusError::UnmappedAddress(0x4000)));
    assert_eq!(cpu.regs().PC, 0x4000);
}

#[test]
fn interrupts_are_disabled_two_instructions_late() {
    let mut cpu = engine(&[0xF3, 0x00, 0x00, 0x00]);
    assert!(cpu.interrupts_enabled());
    assert_eq!(cpu.step(), quiet(4));
    assert!(cpu.interrupts_enabled());
    assert_eq!(cpu.step(), quiet(4));
    assert!(cpu.interrupts_enabled());
    assert_eq!(cpu.step(), quiet(4));
    assert!(!cpu.interrupts_enabled());
    assert_eq!(cpu.step(), quiet(4));
    assert!(!cpu.interrupts_enabled());
}

#[test]
fn the_latency_does_not_depend_on_what_follows() {
    for follower in [0x00u8, 0xF3, 0x04, 0xAF, 0x77, 0xC5] {
        let mut cpu = engine(&[0xF3, follower, 0x00, 0x00]);
        assert_eq!(cpu.step(), quiet(4));
        assert!(cpu.interrupts_enabled());
        let _ = cpu.step();
        assert!(cpu.interrupts_enabled());
        let _ = cpu.step();
        assert!(!cpu.interrupts_enabled());
        assert_eq!(cpu.mode_flags().change_intrpt_mode, ToggleStage::Idle);
    }
}

#[test]
fn an_instruction_that_the_bus_refuses_still_counts() {
    let mut cpu = engine(&[0xF3, 0x77, 0x00]);
    assert_eq!(cpu.step(), quiet(4));
    assert_eq!(cpu.mode_flags().change_intrpt_mode, ToggleStage::Armed);
    assert_eq!(
        cpu.step(),
        Err(CpuError::Bus(BusError::Cartridge(CartridgeError::ReadOnlyViolation)))
    );
    assert_eq!(cpu.mode_flags().change_intrpt_mode, ToggleStage::Due);
    assert!(cpu.interrupts_enabled());
    assert_eq!(cpu.step(), quiet(4));
    assert!(!cpu.interrupts_enabled());
}

#[test]
fn the_toggle_is_carried_by_every_instruction_byte() {
    let mut cpu = engine(&[]);
    let before = cpu.regs();
    assert_eq!(cpu.mode_flags().change_intrpt_mode, ToggleStage::Idle);
    assert_eq!(cpu.exec_instr(0xF3), Ok(4));
    assert!(cpu.interrupts_enabled());
    assert_eq!(cpu.mode_flags().change_intrpt_mode, ToggleStage::Armed);
    assert_eq!(cpu.exec_instr(0x00), Ok(4));
    assert!(cpu.interrupts_enabled());
    assert_eq!(cpu.mode_flags().change_intrpt_mode, ToggleStage::Due);
    assert_eq!(cpu.exec_instr(0x00), Ok(4));
    assert!(!cpu.interrupts_enabled());
    assert_eq!(cpu.mode_flags().change_intrpt_mode, ToggleStage::Idle);
    assert_eq!(cpu.exec_instr(0x00), Ok(4));
    assert!(!cpu.interrupts_enabled());
    assert_eq!(cpu.mode_flags().change_intrpt_mode, ToggleStage::Idle);
    assert_eq!(cpu.regs(), before);
}

#[test]
fn the_toggle_fires_once() {
    let mut cpu = engine(&[0xF3, 0x00, 0x00, 0x00, 0x00, 0x00, 0x00]);
    assert_eq!(cpu.step(), quiet(4));
    assert_eq!(cpu.step(), quiet(4));
    for _ in 0..5 {
        assert_eq!(cpu.step(), quiet(4));
        assert!(!cpu.interrupts_enabled());
        assert_eq!(cpu.mode_flags().change_intrpt_mode, ToggleStage::Idle);
    }
}

#[test]
fn a_byte_that_is_no_instruction_moves_nothing() {
    let mut cpu = engine(&[0xF3, 0x01, 0x00, 0x00]);
    assert_eq!(cpu.step(), quiet(4));
    assert_eq!(cpu.mode_flags().change_intrpt_mode, ToggleStage::Armed);
    assert!(cpu.step().is_err());
    assert_eq!(cpu.regs().PC, 0x0102);
    assert_eq!(cpu.mode_flags().change_intrpt_mode, ToggleStage::Armed);
    assert!(cpu.interrupts_enabled());
    let before = cpu.regs();
    assert!(cpu.exec_instr(0x01).is_err());
    assert_eq!(cpu.regs(), before);
    assert_eq!(cpu.mode_flags().change_intrpt_mode, ToggleStage::Armed);
    assert_eq!(cpu.step(), quiet(4));
    assert!(cpu.interrupts_enabled());
    assert_eq!(cpu.mode_flags().change_intrpt_mode, ToggleStage::Due);
    assert_eq!(cpu.step(), quiet(4));
    assert!(!cpu.interrupts_enabled());
}

#[test]
fn a_refused_fetch_moves_nothing() {
    let mut cpu = engine(&[0xF3]);
    assert_eq!(cpu.step(), quiet(4));
    with_regs(&mut cpu, |r| r.PC = 0x4000);
    assert_eq!(cpu.step(), Err(CpuError::Bus(BusError::UnmappedAddress(0x4000))));
    assert_eq!(cpu.mode_flags().change_intrpt_mode, ToggleStage::Armed);
    assert!(cpu.interrupts_enabled());
}

#[test]
fn a_second_request_flips_the_enable_back() {
    let mut cpu = engine(&[0xF3, 0x00, 0x00, 0xF3, 0x00, 0x00]);
    for _ in 0..3 {
        assert_eq!(cpu.step(), quiet(4));
    }
    assert!(!cpu.interrupts_enabled());
    assert_eq!(cpu.step(), quiet(4));
    assert!(!cpu.interrupts_enabled());
    assert_eq!(cpu.step(), quiet(4));
    assert!(!cpu.interrupts_enabled());
    assert_eq!(cpu.step(), quiet(4));
    assert!(cpu.interrupts_enabled());
}

#[test]
fn a_byte_outside_the_first_table() {
    let mut cpu = engine(&[0x01]);
    let before = cpu.regs();
    let failure = DecodeError {
        opcode: 0x01,
        prefixed: false,
        addr: 0x0100,
        regs: Registers { PC: 0x0101, ..before },
    };
    assert_eq!(cpu.step(), Err(CpuError::Decode(failure)));
    assert_eq!(cpu.regs(), Registers { PC: 0x0101, ..before });
    let dump = failure.dump();
    assert_eq!(
        (dump.af, dump.bc, dump.de, dump.hl, dump.sp, dump.pc),
        (0x01B0, 0x0013, 0x00D8, 0x014D, 0xFFFE, 0x0101)
    );
}

#[test]
fn a_byte_outside_the_second_table() {
    let mut cpu = engine(&[0xCB, 0x00]);
    let before = cpu.regs();
    let failure = DecodeError {
        opcode: 0x00,
        prefixed: true,
        addr: 0x0101,
        regs: Registers { PC: 0x0102, ..before },
    };
    assert_eq!(cpu.step(), Err(CpuError::Decode(failure)));
    assert_eq!(cpu.exec_prefix_instr(0x7D), Err(CpuError::Decode(DecodeError {
        opcode: 0x7D,
        prefixed: true,
        addr: 0x0101,
        regs: Registers { PC: 0x0102, ..before },
    })));
}

#[test]
fn every_unknown_byte_is_reported() {
    for opcode in 0..=0xFFu8 {
        if decode(opcode).is_some() {
            continue;
        }
        let mut cpu = engine(&[opcode]);
        let before = cpu.regs();
        assert_eq!(
            cpu.step(),
            Err(CpuError::Decode(DecodeError {
                opcode,
                prefixed: false,
                addr: 0x0100,
                regs: Registers { PC: 0x0101, ..before },
            }))
        );
    }
}

#[test]
fn the_bus_can_refuse_an_instruction() {
    let mut cpu = engine(&[0x1A, 0x77, 0xF0, 0xFF, 0xEA, 0x00, 0xA0]);
    with_regs(&mut cpu, |r| {
        r.set_DE(0xA000);
        r.set_HL(0x0000);
    });
    let before = cpu.regs();
    assert_eq!(cpu.step(), Err(CpuError::Bus(BusError::UnmappedAddress(0xA000))));
    assert_eq!(cpu.regs(), Registers { PC: 0x0101, ..before });
    assert_eq!(
        cpu.step(),
        Err(CpuError::Bus(BusError::Cartridge(CartridgeError::ReadOnlyViolation)))
    );
    assert_eq!(cpu.regs(), Registers { PC: 0x0102, ..before });
    assert_eq!(cpu.step(), Err(CpuError::Bus(BusError::UnmappedAddress(0xFFFF))));
    assert_eq!(cpu.regs(), Registers { PC: 0x0104, ..before });
    assert_eq!(cpu.step(), Err(CpuError::Bus(BusError::UnmappedAddress(0xA000))));
    assert_eq!(cpu.regs(), Registers { PC: 0x0107, ..before });
}

#[test]
fn a_fetch_outside_mapped_memory() {
    let mut cpu = engine(&[]);
    with_regs(&mut cpu, |r| r.PC = 0x4000);
    let before = cpu.regs();
    assert_eq!(cpu.step(), Err(CpuError::Bus(BusError::UnmappedAddress(0x4000))));
    assert_eq!(cpu.regs(), before);
    assert_eq!(cpu.run(10), Err(CpuError::Bus(BusError::UnmappedAddress(0x4000))));
}

#[test]
fn instructions_by_their_bytes() {
    let mut cpu = engine(&[]);
    with_regs(&mut cpu, |r| r.B = 0x0F);
    assert_eq!(cpu.exec_instr(0x04), Ok(4));
    assert_eq!((cpu.regs().B, cpu.regs().F), (0x10, 0x30));
    assert_eq!(cpu.exec_prefix_instr(0x7C), Ok(8));
    assert_eq!(cpu.run_instr(Instr::Ld(Reg8::A, Reg8::B)), Ok(4));
    assert_eq!(cpu.regs().A, 0x10);
    assert_eq!(cpu.regs().PC, START);
}

#[test]
fn each_instruction_drives_the_display_by_its_cost() {
    let mut cpu = engine(&[0x00; 0x100]);
    assert_eq!(cpu.write(0xFF40, 0x80), Ok(()));
    for _ in 0..20 {
        assert_eq!(cpu.step(), quiet(4));
    }
    assert_eq!(cpu.mmu().ppu().get_mode(), LCDModes::OAM);
    assert_eq!(cpu.step(), quiet(4));
    assert_eq!(cpu.mmu().ppu().get_mode(), LCDModes::TRANSFER);
}

#[test]
fn a_frame_is_announced_by_the_step_that_completes_it() {
    let mut cpu = engine(&[0x18, 0xFE]);
    assert_eq!(cpu.write(0xFF40, 0x80), Ok(()));
    for _ in 0..(71_520 / 8 - 1) {
        assert_eq!(cpu.step(), quiet(8));
    }
    assert_eq!(cpu.mmu().ppu().get_mode(), LCDModes::VBLANK);
    assert_eq!(cpu.step(), Ok(Step { cycles: 8, frame_ready: true }));
    assert_eq!(cpu.mmu().ppu().get_mode(), LCDModes::OAM);
    assert_eq!(cpu.frame().len(), 23040);
    assert!(cpu.frame().iter().all(|p| *p == COLOR_WHITE));
    assert_eq!(cpu.step(), quiet(8));
}

#[test]
fn run_stops_at_a_frame() {
    let mut cpu = engine(&[0x18, 0xFE]);
    assert_eq!(cpu.write(0xFF40, 0x80), Ok(()));
    assert_eq!(cpu.run(8939), Ok(false));
    assert_eq!(cpu.mmu().ppu().get_mode(), LCDModes::VBLANK);
    assert_eq!(cpu.run(1_000_000), Ok(true));
    assert_eq!(cpu.mmu().ppu().get_mode(), LCDModes::OAM);
    assert_eq!(cpu.mmu().ppu().read_registers(0xFF44), Ok(0));
    assert_eq!(cpu.run(8940), Ok(true));
    assert_eq!(cpu.run(0), Ok(false));
}

#[test]
fn run_stops_when_its_steps_are_used_up() {
    let mut cpu = engine(&[0x04, 0x18, 0xFD]);
    with_regs(&mut cpu, |r| r.B = 0);
    assert_eq!(cpu.run(200), Ok(false));
    assert_eq!(cpu.regs().B, 100);
    assert_eq!(cpu.regs().PC, START);
}

#[test]
fn run_stops_at_a_failure() {
    let mut cpu = engine(&[0x00, 0x00, 0x01]);
    let before = cpu.regs();
    assert_eq!(
        cpu.run(100),
        Err(CpuError::Decode(DecodeError {
            opcode: 0x01,
            prefixed: false,
            addr: 0x0102,
            regs: Registers { PC: 0x0103, ..before },
        }))
    );
}

#[test]
fn the_engine_remembers_the_last_cost() {
    let mut cpu = engine(&[0x00, 0xC3, 0x00, 0x01, 0x01]);
    assert_eq!(cpu.cycles(), 0);
    assert_eq!(cpu.step(), quiet(4));
    assert_eq!(cpu.cycles(), 4);
    assert_eq!(cpu.step(), quiet(16));
    assert_eq!(cpu.cycles(), 16);
    with_regs(&mut cpu, |r| r.PC = 0x0104);
    assert!(cpu.step().is_err());
    assert_eq!(cpu.cycles(), 16);
}

#[test]
fn bytes_that_read_back_anyway() {
    let mut cpu = engine(&[]);
    with_regs(&mut cpu, |r| r.SP = 0xFF46);
    assert_eq!(cpu.stack_push_u16(0xBE00), Ok(()));
    assert_eq!(cpu.stack_pop_u16(), Ok(0xBE00));
    assert_eq!(cpu.write(0xFF40, 0x80), Ok(()));
    with_regs(&mut cpu, |r| r.SP = 0x8002);
    assert_eq!(cpu.stack_push_u16(0xFFFF), Ok(()));
    assert_eq!(cpu.stack_pop_u16(), Ok(0xFFFF));
    assert_eq!(cpu.stack_push_u16(0x1234), Ok(()));
    assert_eq!(cpu.stack_pop_u16(), Ok(0xFFFF));
    assert_eq!(cpu.regs().SP, 0x8002);
}
