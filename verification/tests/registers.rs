use gb_rs::regs::{FlagsMasks, Reg16, Reg8, Registers};

const ALL_FLAGS: [FlagsMasks; 4] = [FlagsMasks::Z, FlagsMasks::N, FlagsMasks::H, FlagsMasks::C];

#[test]
fn power_on_values() {
    let r = Registers::new();
    assert_eq!(r.A, 0x01);
    assert_eq!(r.B, 0x00);
    assert_eq!(r.C, 0x13);
    assert_eq!(r.D, 0x00);
    assert_eq!(r.E, 0xD8);
    assert_eq!(r.H, 0x01);
    assert_eq!(r.L, 0x4D);
    assert_eq!(r.F, 0xB0);
    assert_eq!(r.SP, 0xFFFE);
    assert_eq!(r.PC, 0x0000);
    assert!(r.get_flag(FlagsMasks::Z));
    assert!(!r.get_flag(FlagsMasks::N));
    assert!(r.get_flag(FlagsMasks::H));
    assert!(r.get_flag(FlagsMasks::C));
}

#[test]
fn pairs_are_high_times_256_plus_low() {
    let r = Registers::new();
    assert_eq!(r.BC(), 0x0013);
    assert_eq!(r.DE(), 0x00D8);
    assert_eq!(r.HL(), 0x014D);
    assert_eq!(r.AF(), 0x01B0);
}

#[test]
fn af_low_byte_holds_only_the_flags() {
    let mut r = Registers::new();
    r.A = 0x12;
    r.F = 0xFF;
    assert_eq!(r.AF(), 0x12F0);
    r.set_AF(0xABCD);
    assert_eq!(r.A, 0xAB);
    assert_eq!(r.F, 0xC0);
    assert_eq!(r.AF(), 0xABC0);
    r.set_AF(0x000F);
    assert_eq!(r.A, 0x00);
    assert_eq!(r.F, 0x00);
}

#[test]
fn setting_a_pair_splits_the_word() {
    let mut r = Registers::new();
    r.set_BC(0x1234);
    assert_eq!((r.B, r.C), (0x12, 0x34));
    assert_eq!(r.BC(), 0x1234);
    r.set_DE(0xFF00);
    assert_eq!((r.D, r.E), (0xFF, 0x00));
    assert_eq!(r.DE(), 0xFF00);
    r.set_HL(0x00FF);
    assert_eq!((r.H, r.L), (0x00, 0xFF));
    assert_eq!(r.HL(), 0x00FF);
    assert_eq!(r.A, 0x01);
    assert_eq!(r.F, 0xB0);
    assert_eq!(r.SP, 0xFFFE);
}

#[test]
fn every_word_survives_a_pair() {
    let mut r = Registers::new();
    for w in 0..=0xFFFFu16 {
        r.set_HL(w);
        assert_eq!(r.HL(), w);
    }
}

#[test]
fn program_counter_wraps() {
    let mut r = Registers::new();
    r.inc_PC();
    assert_eq!(r.PC, 1);
    r.PC = 0xFFFF;
    r.inc_PC();
    assert_eq!(r.PC, 0);
}

#[test]
fn flag_masks_are_the_upper_nibble_bits() {
    assert_eq!(FlagsMasks::Z.mask(), 0x80);
    assert_eq!(FlagsMasks::N.mask(), 0x40);
    assert_eq!(FlagsMasks::H.mask(), 0x20);
    assert_eq!(FlagsMasks::C.mask(), 0x10);
}

#[test]
fn writing_a_flag_leaves_the_other_bits_alone() {
    for f in 0..=0xFFu8 {
        for (i, flag) in ALL_FLAGS.iter().enumerate() {
            for active in [false, true] {
                let mut r = Registers::new();
                r.F = f;
                r.set_flag(*flag, active);
                assert_eq!(r.get_flag(*flag), active);
                for (j, other) in ALL_FLAGS.iter().enumerate() {
                    if i != j {
                        assert_eq!(r.get_flag(*other), f & other.mask() != 0);
                    }
                }
                assert_eq!(r.F & 0x0F, f & 0x0F);
                assert_eq!(r.F & !flag.mask(), f & !flag.mask());
                assert_eq!(r.A, 0x01);
                assert_eq!(r.PC, 0);
            }
        }
    }
}

#[test]
fn set_flag_exact_bytes() {
    let mut r = Registers::new();
    r.F = 0x00;
    r.set_flag(FlagsMasks::Z, true);
    assert_eq!(r.F, 0x80);
    r.set_flag(FlagsMasks::C, true);
    assert_eq!(r.F, 0x90);
    r.set_flag(FlagsMasks::Z, false);
    assert_eq!(r.F, 0x10);
    r.set_flag(FlagsMasks::H, true);
    r.set_flag(FlagsMasks::N, true);
    assert_eq!(r.F, 0x70);
}

#[test]
fn set_flags_builds_the_flag_byte() {
    let mut r = Registers::new();
    r.set_flags(true, false, true, false);
    assert_eq!(r.F, 0xA0);
    r.set_flags(false, true, false, true);
    assert_eq!(r.F, 0x50);
    r.set_flags(false, false, false, false);
    assert_eq!(r.F, 0x00);
    r.set_flags(true, true, true, true);
    assert_eq!(r.F, 0xF0);
}

#[test]
fn registers_by_name() {
    let mut r = Registers::new();
    let names = [Reg8::A, Reg8::B, Reg8::C, Reg8::D, Reg8::E, Reg8::H, Reg8::L];
    for (i, name) in names.iter().enumerate() {
        r.set8(*name, 0x10 + i as u8);
    }
    assert_eq!((r.A, r.B, r.C, r.D, r.E, r.H, r.L), (0x10, 0x11, 0x12, 0x13, 0x14, 0x15, 0x16));
    for (i, name) in names.iter().enumerate() {
        assert_eq!(r.get8(*name), 0x10 + i as u8);
    }
    assert_eq!(r.get16(Reg16::BC), 0x1112);
    assert_eq!(r.get16(Reg16::DE), 0x1314);
    assert_eq!(r.get16(Reg16::HL), 0x1516);
    assert_eq!(r.get16(Reg16::SP), 0xFFFE);
    r.set16(Reg16::SP, 0xC100);
    r.set16(Reg16::BC, 0xBEEF);
    assert_eq!(r.SP, 0xC100);
    assert_eq!((r.B, r.C), (0xBE, 0xEF));
}
