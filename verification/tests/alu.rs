use gb_rs::bits::{take_bit_pair, test_bit};
use gb_rs::regs::{FlagsMasks, Registers};

fn flags_of(r: &Registers) -> (bool, bool, bool, bool) {
    (
        r.get_flag(FlagsMasks::Z),
        r.get_flag(FlagsMasks::N),
        r.get_flag(FlagsMasks::H),
        r.get_flag(FlagsMasks::C),
    )
}

#[test]
fn decrement_of_every_byte() {
    for carry in [false, true] {
        for v in 0..=0xFFu8 {
            let mut r = Registers::new();
            r.set_flags(false, false, false, carry);
            let before = r;
            let res = r.dec_u8(v);
            assert_eq!(res, v.wrapping_sub(1));
            assert_eq!(flags_of(&r), (res == 0, true, v & 0x0F == 0, carry));
            assert_eq!(r.F & 0x0F, 0);
            assert_eq!((r.A, r.B, r.C, r.D, r.E, r.H, r.L), (
                before.A, before.B, before.C, before.D, before.E, before.H, before.L,
            ));
            assert_eq!((r.SP, r.PC), (before.SP, before.PC));
        }
    }
}

#[test]
fn decrement_wraps_zero_without_signalling_zero() {
    let mut r = Registers::new();
    let res = r.dec_u8(0x00);
    assert_eq!(res, 0xFF);
    assert!(!r.get_flag(FlagsMasks::Z));
    assert!(r.get_flag(FlagsMasks::N));
    assert!(r.get_flag(FlagsMasks::H));
    assert_eq!(r.F, 0x70);
}

#[test]
fn decrement_exact_flag_bytes() {
    let mut r = Registers::new();
    r.F = 0x00;
    assert_eq!(r.dec_u8(0x01), 0x00);
    assert_eq!(r.F, 0xC0);
    assert_eq!(r.dec_u8(0x10), 0x0F);
    assert_eq!(r.F, 0x60);
    assert_eq!(r.dec_u8(0x42), 0x41);
    assert_eq!(r.F, 0x40);
}

#[test]
fn increment_of_every_byte() {
    for carry in [false, true] {
        for v in 0..=0xFFu8 {
            let mut r = Registers::new();
            r.set_flags(true, true, false, carry);
            let res = r.inc_u8(v);
            assert_eq!(res, v.wrapping_add(1));
            assert_eq!(flags_of(&r), (res == 0, false, v & 0x0F == 0x0F, carry));
        }
    }
}

#[test]
fn increment_exact_flag_bytes() {
    let mut r = Registers::new();
    r.F = 0x10;
    assert_eq!(r.inc_u8(0xFF), 0x00);
    assert_eq!(r.F, 0xB0);
    assert_eq!(r.inc_u8(0x0F), 0x10);
    assert_eq!(r.F, 0x30);
    assert_eq!(r.inc_u8(0x41), 0x42);
    assert_eq!(r.F, 0x10);
}

#[test]
fn xor_of_every_pair() {
    for a in 0..=0xFFu8 {
        for v in 0..=0xFFu8 {
            let mut r = Registers::new();
            r.A = a;
            r.xor(v);
            assert_eq!(r.A, a ^ v);
            assert_eq!(flags_of(&r), (a == v, false, false, false));
        }
    }
}

#[test]
fn xor_with_itself_is_zero() {
    for a in 0..=0xFFu8 {
        let mut r = Registers::new();
        r.A = a;
        r.xor(a);
        assert_eq!(r.A, 0);
        assert_eq!(r.F, 0x80);
    }
}

#[test]
fn xor_clears_the_other_flags() {
    let mut r = Registers::new();
    r.A = 0x0F;
    r.F = 0xF0;
    r.xor(0xF0);
    assert_eq!(r.A, 0xFF);
    assert_eq!(r.F, 0x00);
}

#[test]
fn compare_of_every_pair() {
    for a in 0..=0xFFu8 {
        for v in 0..=0xFFu8 {
            let mut r = Registers::new();
            r.A = a;
            let res = r.compare(a, v);
            assert_eq!(res, a.wrapping_sub(v));
            assert_eq!(r.A, a);
            assert_eq!(flags_of(&r), (a == v, true, (a & 0x0F) < (v & 0x0F), a < v));
        }
    }
}

#[test]
fn compare_exact_flag_bytes() {
    let mut r = Registers::new();
    r.A = 0x90;
    assert_eq!(r.compare(0x90, 0x90), 0x00);
    assert_eq!(r.F, 0xC0);
    assert_eq!(r.compare(0x10, 0x01), 0x0F);
    assert_eq!(r.F, 0x60);
    assert_eq!(r.compare(0x01, 0x10), 0xF1);
    assert_eq!(r.F, 0x50);
    assert_eq!(r.compare(0x00, 0x01), 0xFF);
    assert_eq!(r.F, 0x70);
    assert_eq!(r.A, 0x90);
}

#[test]
fn rotate_left_brings_bit_seven_back_in() {
    for v in 0..=0xFFu8 {
        let mut r = Registers::new();
        r.set_flags(true, true, true, false);
        let res = r.rl(v);
        assert_eq!(res, v.rotate_left(1));
        assert_eq!(flags_of(&r), (res == 0, false, false, v & 0x80 != 0));
    }
}

#[test]
fn rotate_left_exact_values() {
    let mut r = Registers::new();
    assert_eq!(r.rl(0x80), 0x01);
    assert_eq!(r.F, 0x10);
    assert_eq!(r.rl(0x00), 0x00);
    assert_eq!(r.F, 0x80);
    assert_eq!(r.rl(0x55), 0xAA);
    assert_eq!(r.F, 0x00);
    assert_eq!(r.rl(0xFF), 0xFF);
    assert_eq!(r.F, 0x10);
}

#[test]
fn bit_test_of_every_bit() {
    for carry in [false, true] {
        for v in 0..=0xFFu8 {
            for k in 0..8u8 {
                let mut r = Registers::new();
                r.set_flags(false, true, false, carry);
                r.bit(v, k);
                assert_eq!(flags_of(&r), (v & (1 << k) == 0, false, true, carry));
            }
        }
    }
}

#[test]
fn bit_seven_exact_flag_bytes() {
    let mut r = Registers::new();
    r.F = 0x10;
    r.bit(0x80, 7);
    assert_eq!(r.F, 0x30);
    r.bit(0x7F, 7);
    assert_eq!(r.F, 0xB0);
}

#[test]
fn single_bits_and_bit_pairs() {
    assert!(test_bit(0x01, 0));
    assert!(!test_bit(0x01, 1));
    assert!(test_bit(0x80, 7));
    assert!(!test_bit(0x7F, 7));
    assert_eq!(take_bit_pair(0xE4, 0), 0);
    assert_eq!(take_bit_pair(0xE4, 2), 1);
    assert_eq!(take_bit_pair(0xE4, 4), 2);
    assert_eq!(take_bit_pair(0xE4, 6), 3);
    assert_eq!(take_bit_pair(0xFF, 7), 1);
}
