use gameboy::registers::{Flag, Reg16, Reg8, Registers};

#[test]
fn new_is_zeroed_with_initial_pc() {
    let r = Registers::new();
    assert_eq!(r.get_a(), 0);
    assert_eq!(r.get_f(), 0);
    assert_eq!(r.get_bc(), 0);
    assert_eq!(r.get_de(), 0);
    assert_eq!(r.get_hl(), 0);
    assert_eq!(r.get_sp(), 0);
    assert_eq!(r.get_pc(), 0x0100);
}

#[test]
fn pair_overlap_halves_to_word() {
    let mut r = Registers::new();
    r.set_b(0x12);
    r.set_c(0x34);
    assert_eq!(r.get_bc(), 0x1234);
    r.set_h(0xAB);
    r.set_l(0xCD);
    assert_eq!(r.get_hl(), 0xABCD);
    r.set_a(0xFF);
    r.set_f(0x00);
    assert_eq!(r.get_af(), 0xFF00);
}

#[test]
fn pair_overlap_word_to_halves() {
    let mut r = Registers::new();
    r.set_de(0xBEEF);
    assert_eq!(r.get_d(), 0xBE);
    assert_eq!(r.get_e(), 0xEF);
    r.set_af(0x1234);
    assert_eq!(r.get_a(), 0x12);
    assert_eq!(r.get_f(), 0x34);
}

#[test]
fn pair_overlap_roundtrip_all_pairs() {
    let mut r = Registers::new();
    for &reg in &[Reg16::AF, Reg16::BC, Reg16::DE, Reg16::HL, Reg16::SP, Reg16::PC] {
        r.set_reg_16(reg, 0xA55A);
        assert_eq!(r.get_reg_16(reg), 0xA55A);
    }
}

#[test]
fn reg8_selector_get_set() {
    let mut r = Registers::new();
    let regs = [Reg8::A, Reg8::F, Reg8::B, Reg8::C, Reg8::D, Reg8::E, Reg8::H, Reg8::L];
    for (i, &reg) in regs.iter().enumerate() {
        r.set_reg_8(reg, 0x10 + i as u8);
    }
    for (i, &reg) in regs.iter().enumerate() {
        assert_eq!(r.get_reg_8(reg), 0x10 + i as u8);
    }
}

#[test]
fn flags_set_and_clear_without_disturbing_others() {
    let mut r = Registers::new();
    r.set_flag(Flag::Z, true);
    assert!(r.get_flag(Flag::Z));
    assert_eq!(r.get_f(), 0x80);
    r.set_flag(Flag::C, true);
    assert!(r.get_flag(Flag::C));
    assert!(r.get_flag(Flag::Z));
    assert_eq!(r.get_f(), 0x90);
    r.set_flag(Flag::Z, false);
    assert!(!r.get_flag(Flag::Z));
    assert!(r.get_flag(Flag::C));
    assert_eq!(r.get_f(), 0x10);
    r.set_flag(Flag::N, true);
    r.set_flag(Flag::H, true);
    assert_eq!(r.get_f(), 0x70);
}

#[test]
fn flag_bits_match_their_positions() {
    let mut r = Registers::new();
    r.set_f(0xF0);
    assert!(r.get_flag(Flag::Z));
    assert!(r.get_flag(Flag::N));
    assert!(r.get_flag(Flag::H));
    assert!(r.get_flag(Flag::C));
    r.set_f(0x80);
    assert!(r.get_flag(Flag::Z));
    assert!(!r.get_flag(Flag::N));
    r.set_f(0x40);
    assert!(r.get_flag(Flag::N));
    r.set_f(0x20);
    assert!(r.get_flag(Flag::H));
    r.set_f(0x10);
    assert!(r.get_flag(Flag::C));
}
