use gameboy::cpu::Gameboy;
use gameboy::registers::Flag;

/// A machine with the given bytes written at the initial PC, 0x0100.
fn with_program(bytes: &[u8]) -> Gameboy {
    let mut gb = Gameboy::new();
    let mut addr: u16 = 0x0100;
    for &b in bytes {
        gb.write(addr, b);
        addr += 1;
    }
    gb
}

fn step_n(gb: &mut Gameboy, n: usize) {
    for _ in 0..n {
        assert_eq!(gb.step(), Ok(true));
    }
}

#[test]
fn scenario_add_register() {
    // LD A,5; LD B,3; ADD A,B; NOP
    let mut gb = with_program(&[0x3E, 0x05, 0x06, 0x03, 0x80, 0x00]);
    step_n(&mut gb, 3);
    let r = gb.registers();
    assert_eq!(r.get_a(), 8);
    assert!(!r.get_flag(Flag::Z));
    assert!(!r.get_flag(Flag::N));
    assert!(!r.get_flag(Flag::H));
    assert!(!r.get_flag(Flag::C));
}

#[test]
fn scenario_inc_wraps_and_sets_zero_and_half_carry() {
    // LD A,0xFF; INC A
    let mut gb = with_program(&[0x3E, 0xFF, 0x3C]);
    step_n(&mut gb, 2);
    let r = gb.registers();
    assert_eq!(r.get_a(), 0x00);
    assert!(r.get_flag(Flag::Z));
    assert!(r.get_flag(Flag::H));
    assert!(!r.get_flag(Flag::N));
    assert!(!r.get_flag(Flag::C));
}

#[test]
fn scenario_inc_keeps_carry_set() {
    // LD A,0; CP 1 (sets C); LD A,0xFF; INC A
    let mut gb = with_program(&[0x3E, 0x00, 0xFE, 0x01, 0x3E, 0xFF, 0x3C]);
    step_n(&mut gb, 2);
    assert!(gb.registers().get_flag(Flag::C));
    step_n(&mut gb, 2);
    let r = gb.registers();
    assert_eq!(r.get_a(), 0x00);
    assert!(r.get_flag(Flag::Z));
    assert!(r.get_flag(Flag::H));
    assert!(r.get_flag(Flag::C));
}

#[test]
fn scenario_push_bc() {
    // LD SP,0xD000; LD BC,0x1234; PUSH BC
    let mut gb = with_program(&[0x31, 0x00, 0xD0, 0x01, 0x34, 0x12, 0xC5]);
    step_n(&mut gb, 3);
    let r = gb.registers();
    assert_eq!(r.get_sp(), 0xCFFE);
    assert_eq!(gb.read(0xCFFE), 0x34);
    assert_eq!(gb.read(0xCFFF), 0x12);
}

#[test]
fn push_wraps_at_stack_pointer_zero() {
    // SP starts at 0: PUSH BC lands at 0xFFFF / 0xFFFE.
    let mut gb = with_program(&[0x01, 0x34, 0x12, 0xC5]);
    step_n(&mut gb, 2);
    let r = gb.registers();
    assert_eq!(r.get_sp(), 0xFFFE);
    assert_eq!(gb.read(0xFFFE), 0x34);
    assert_eq!(gb.read(0xFFFF), 0x12);
}

#[test]
fn push_pop_roundtrip() {
    let mut gb = with_program(&[0x31, 0x00, 0xD0]);
    step_n(&mut gb, 1);
    for &v in &[0x0000u16, 0x1234, 0xFFFF, 0x00FF, 0xFF00] {
        let sp_before = gb.registers().get_sp();
        gb.push_d16(v);
        assert_eq!(gb.pop_d16(), v);
        assert_eq!(gb.registers().get_sp(), sp_before);
    }
}

#[test]
fn push_pop_roundtrip_wrapping_stack() {
    let mut gb = Gameboy::new();
    assert_eq!(gb.registers().get_sp(), 0);
    gb.push_d16(0xBEEF);
    assert_eq!(gb.registers().get_sp(), 0xFFFE);
    assert_eq!(gb.pop_d16(), 0xBEEF);
    assert_eq!(gb.registers().get_sp(), 0);
}

#[test]
fn scenario_relative_jump_self_loop() {
    // JR -2 at 0x0100 returns PC to 0x0100, forever.
    let mut gb = with_program(&[0x18, 0xFE]);
    step_n(&mut gb, 1);
    assert_eq!(gb.registers().get_pc(), 0x0100);
    step_n(&mut gb, 3);
    assert_eq!(gb.registers().get_pc(), 0x0100);
}

#[test]
fn relative_jump_forward_and_conditional() {
    // JR NZ,+2 with Z clear skips two bytes.
    let mut gb = with_program(&[0x20, 0x02, 0x00, 0x00, 0x00]);
    step_n(&mut gb, 1);
    assert_eq!(gb.registers().get_pc(), 0x0104);
    // With Z set the jump is not taken but the offset is consumed.
    let mut gb2 = with_program(&[0x3E, 0x00, 0xFE, 0x00, 0x20, 0x7F]);
    step_n(&mut gb2, 3);
    assert_eq!(gb2.registers().get_pc(), 0x0106);
}

#[test]
fn absolute_jump_sets_pc() {
    let mut gb = with_program(&[0xC3, 0x00, 0x02]);
    step_n(&mut gb, 1);
    assert_eq!(gb.registers().get_pc(), 0x0200);
}

#[test]
fn pc_wraps_past_end_of_memory() {
    let mut gb = with_program(&[0xC3, 0xFF, 0xFF]);
    step_n(&mut gb, 1);
    assert_eq!(gb.registers().get_pc(), 0xFFFF);
    // A NOP at 0xFFFF wraps PC to 0x0000.
    step_n(&mut gb, 1);
    assert_eq!(gb.registers().get_pc(), 0x0000);
}

#[test]
fn call_and_ret_roundtrip() {
    // LD SP,0xD000; CALL 0x0200 ... at 0x0200: RET
    let mut gb = with_program(&[0x31, 0x00, 0xD0, 0xCD, 0x00, 0x02]);
    gb.write(0x0200, 0xC9);
    step_n(&mut gb, 2);
    let r = gb.registers();
    assert_eq!(r.get_pc(), 0x0200);
    assert_eq!(r.get_sp(), 0xCFFE);
    assert_eq!(gb.read(0xCFFE), 0x06);
    assert_eq!(gb.read(0xCFFF), 0x01);
    step_n(&mut gb, 1);
    let r = gb.registers();
    assert_eq!(r.get_pc(), 0x0106);
    assert_eq!(r.get_sp(), 0xD000);
}

#[test]
fn rst_pushes_return_address_and_jumps() {
    // LD SP,0xD000; RST 0x18
    let mut gb = with_program(&[0x31, 0x00, 0xD0, 0xDF]);
    step_n(&mut gb, 2);
    let r = gb.registers();
    assert_eq!(r.get_pc(), 0x0018);
    assert_eq!(r.get_sp(), 0xCFFE);
    assert_eq!(gb.read(0xCFFE), 0x04);
    assert_eq!(gb.read(0xCFFF), 0x01);
}

#[test]
fn halt_stops_the_engine() {
    let mut gb = with_program(&[0x76]);
    assert_eq!(gb.step(), Ok(false));
    assert_eq!(gb.registers().get_pc(), 0x0101);
}

#[test]
fn stop_is_a_no_op_that_continues() {
    let mut gb = with_program(&[0x10, 0x00]);
    assert_eq!(gb.step(), Ok(true));
    assert_eq!(gb.registers().get_pc(), 0x0101);
}

#[test]
fn unknown_opcode_reports_byte_and_address() {
    let mut gb = with_program(&[0x00, 0xD3]);
    step_n(&mut gb, 1);
    let e = gb.step().unwrap_err();
    assert_eq!(e.opcode, 0xD3);
    assert!(!e.prefixed);
    assert_eq!(e.addr, 0x0101);
    // The opcode byte was still consumed.
    assert_eq!(gb.registers().get_pc(), 0x0102);
}

#[test]
fn unknown_prefixed_opcode_reports_byte_and_address() {
    let mut gb = with_program(&[0xCB, 0x00]);
    let e = gb.step().unwrap_err();
    assert_eq!(e.opcode, 0x00);
    assert!(e.prefixed);
    assert_eq!(e.addr, 0x0101);
    assert_eq!(gb.registers().get_pc(), 0x0102);
}

#[test]
fn cp_sets_compare_flags() {
    // LD A,0x10; CP 0x20
    let mut gb = with_program(&[0x3E, 0x10, 0xFE, 0x20]);
    step_n(&mut gb, 2);
    let r = gb.registers();
    assert_eq!(r.get_a(), 0x10);
    assert!(!r.get_flag(Flag::Z));
    assert!(r.get_flag(Flag::N));
    assert!(!r.get_flag(Flag::H));
    assert!(r.get_flag(Flag::C));
}

#[test]
fn cp_low_nibble_borrow_sets_half_carry() {
    // LD A,0x20; CP 0x02: (0 < 2) borrows the nibble, but A >= n.
    let mut gb = with_program(&[0x3E, 0x20, 0xFE, 0x02]);
    step_n(&mut gb, 2);
    let r = gb.registers();
    assert!(r.get_flag(Flag::H));
    assert!(!r.get_flag(Flag::C));
    assert!(!r.get_flag(Flag::Z));
}

#[test]
fn cp_equal_sets_zero() {
    let mut gb = with_program(&[0x3E, 0x42, 0xFE, 0x42]);
    step_n(&mut gb, 2);
    let r = gb.registers();
    assert!(r.get_flag(Flag::Z));
    assert!(r.get_flag(Flag::N));
    assert!(!r.get_flag(Flag::H));
    assert!(!r.get_flag(Flag::C));
}

#[test]
fn add_half_carry_at_nibble_boundary() {
    // LD A,0x0F; LD B,0x01; ADD A,B
    let mut gb = with_program(&[0x3E, 0x0F, 0x06, 0x01, 0x80]);
    step_n(&mut gb, 3);
    let r = gb.registers();
    assert_eq!(r.get_a(), 0x10);
    assert!(r.get_flag(Flag::H));
    assert!(!r.get_flag(Flag::C));
    assert!(!r.get_flag(Flag::Z));
}

#[test]
fn add_carry_and_zero_on_wraparound() {
    // LD A,0xFF; LD B,0x01; ADD A,B
    let mut gb = with_program(&[0x3E, 0xFF, 0x06, 0x01, 0x80]);
    step_n(&mut gb, 3);
    let r = gb.registers();
    assert_eq!(r.get_a(), 0x00);
    assert!(r.get_flag(Flag::Z));
    assert!(r.get_flag(Flag::H));
    assert!(r.get_flag(Flag::C));
    assert!(!r.get_flag(Flag::N));
}

#[test]
fn and_or_xor_flag_rules() {
    // LD A,0xF0; LD B,0x0F; AND B -> 0, Z set, H set, C clear
    let mut gb = with_program(&[0x3E, 0xF0, 0x06, 0x0F, 0xA0]);
    step_n(&mut gb, 3);
    let r = gb.registers();
    assert_eq!(r.get_a(), 0x00);
    assert!(r.get_flag(Flag::Z));
    assert!(r.get_flag(Flag::H));
    assert!(!r.get_flag(Flag::N));
    assert!(!r.get_flag(Flag::C));
    // LD A,0xF0; LD B,0x0F; OR B -> 0xFF, all flags clear
    let mut gb = with_program(&[0x3E, 0xF0, 0x06, 0x0F, 0xB0]);
    step_n(&mut gb, 3);
    let r = gb.registers();
    assert_eq!(r.get_a(), 0xFF);
    assert_eq!(r.get_f(), 0x00);
    // LD A,0xFF; XOR A -> 0, only Z set
    let mut gb = with_program(&[0x3E, 0xFF, 0xAF]);
    step_n(&mut gb, 2);
    let r = gb.registers();
    assert_eq!(r.get_a(), 0x00);
    assert_eq!(r.get_f(), 0x80);
}

#[test]
fn inc_dec_never_modify_carry_at_boundaries() {
    // DEC A from 0x00 wraps to 0xFF; carry stays clear.
    let mut gb = with_program(&[0x3E, 0x00, 0x3D]);
    step_n(&mut gb, 2);
    let r = gb.registers();
    assert_eq!(r.get_a(), 0xFF);
    assert!(!r.get_flag(Flag::C));
    assert!(r.get_flag(Flag::N));
    assert!(r.get_flag(Flag::H));
    // Same with carry set beforehand (CP 1 against A=0 sets C).
    let mut gb = with_program(&[0x3E, 0x00, 0xFE, 0x01, 0x3D]);
    step_n(&mut gb, 3);
    let r = gb.registers();
    assert_eq!(r.get_a(), 0xFF);
    assert!(r.get_flag(Flag::C));
    // INC B from 0xFF wraps to 0x00 with carry set beforehand.
    let mut gb = with_program(&[0x3E, 0x00, 0xFE, 0x01, 0x06, 0xFF, 0x04]);
    step_n(&mut gb, 4);
    let r = gb.registers();
    assert_eq!(r.get_b(), 0x00);
    assert!(r.get_flag(Flag::Z));
    assert!(r.get_flag(Flag::C));
}

#[test]
fn inc16_dec16_wrap_without_flags() {
    // LD HL,0xFFFF; INC HL
    let mut gb = with_program(&[0x21, 0xFF, 0xFF, 0x23]);
    step_n(&mut gb, 2);
    assert_eq!(gb.registers().get_hl(), 0x0000);
    assert_eq!(gb.registers().get_f(), 0x00);
    // LD BC,0x0000; DEC BC
    let mut gb = with_program(&[0x01, 0x00, 0x00, 0x0B]);
    step_n(&mut gb, 2);
    assert_eq!(gb.registers().get_bc(), 0xFFFF);
    assert_eq!(gb.registers().get_f(), 0x00);
}

#[test]
fn add_hl_sets_half_carry_out_of_bit_11() {
    // LD HL,0x0FFF; LD BC,0x0001; ADD HL,BC
    let mut gb = with_program(&[0x21, 0xFF, 0x0F, 0x01, 0x01, 0x00, 0x09]);
    step_n(&mut gb, 3);
    let r = gb.registers();
    assert_eq!(r.get_hl(), 0x1000);
    assert!(r.get_flag(Flag::H));
    assert!(!r.get_flag(Flag::C));
    assert!(!r.get_flag(Flag::N));
}

#[test]
fn add_hl_sets_carry_out_of_bit_15() {
    // LD HL,0xFFFF; LD BC,0x0001; ADD HL,BC
    let mut gb = with_program(&[0x21, 0xFF, 0xFF, 0x01, 0x01, 0x00, 0x09]);
    step_n(&mut gb, 3);
    let r = gb.registers();
    assert_eq!(r.get_hl(), 0x0000);
    assert!(r.get_flag(Flag::H));
    assert!(r.get_flag(Flag::C));
}

#[test]
fn ld_hl_indirect_and_auto_increment() {
    // LD HL,0x9000; LD A,0x5A; LD (HL+),A twice
    let mut gb = with_program(&[0x21, 0x00, 0x90, 0x3E, 0x5A, 0x22, 0x22]);
    step_n(&mut gb, 4);
    assert_eq!(gb.read(0x9000), 0x5A);
    assert_eq!(gb.read(0x9001), 0x5A);
    assert_eq!(gb.registers().get_hl(), 0x9002);
}

#[test]
fn ld_hl_auto_decrement() {
    // LD HL,0x9001; LD A,0x7E; LD (HL-),A
    let mut gb = with_program(&[0x21, 0x01, 0x90, 0x3E, 0x7E, 0x32]);
    step_n(&mut gb, 3);
    assert_eq!(gb.read(0x9001), 0x7E);
    assert_eq!(gb.registers().get_hl(), 0x9000);
}

#[test]
fn high_page_load_and_store() {
    // LD A,0x42; LDH (0x44),A ; LDH A,(0x44)
    let mut gb = with_program(&[0x3E, 0x42, 0xE0, 0x44, 0x3E, 0x00, 0xF0, 0x44]);
    step_n(&mut gb, 2);
    assert_eq!(gb.read(0xFF44), 0x42);
    step_n(&mut gb, 2);
    assert_eq!(gb.registers().get_a(), 0x42);
}

#[test]
fn absolute_store_and_load_of_accumulator() {
    // LD A,0x99; LD (0xC123),A; LD A,0x00; LD A,(0xC123)
    let mut gb = with_program(&[0x3E, 0x99, 0xEA, 0x23, 0xC1, 0x3E, 0x00, 0xFA, 0x23, 0xC1]);
    step_n(&mut gb, 4);
    assert_eq!(gb.read(0xC123), 0x99);
    assert_eq!(gb.registers().get_a(), 0x99);
}

#[test]
fn store_sp_writes_high_byte_first() {
    // LD SP,0xBEEF; LD (0xC000),SP
    let mut gb = with_program(&[0x31, 0xEF, 0xBE, 0x08, 0x00, 0xC0]);
    step_n(&mut gb, 2);
    assert_eq!(gb.read(0xC000), 0xBE);
    assert_eq!(gb.read(0xC001), 0xEF);
}

#[test]
fn swap_exchanges_nibbles() {
    // LD A,0xAB; SWAP A
    let mut gb = with_program(&[0x3E, 0xAB, 0xCB, 0x37]);
    step_n(&mut gb, 2);
    assert_eq!(gb.registers().get_a(), 0xBA);
}

#[test]
fn swap_on_hl_indirect() {
    // LD HL,0x9000; SWAP (HL)
    let mut gb = with_program(&[0x21, 0x00, 0x90, 0xCB, 0x36]);
    gb.write(0x9000, 0xF0);
    step_n(&mut gb, 2);
    assert_eq!(gb.read(0x9000), 0x0F);
}

#[test]
fn res_clears_one_bit() {
    // LD B,0xFF; RES 0,B
    let mut gb = with_program(&[0x06, 0xFF, 0xCB, 0x80]);
    step_n(&mut gb, 2);
    assert_eq!(gb.registers().get_b(), 0xFE);
    // LD HL,0x9000; RES 7,(HL)
    let mut gb = with_program(&[0x21, 0x00, 0x90, 0xCB, 0xBE]);
    gb.write(0x9000, 0xFF);
    step_n(&mut gb, 2);
    assert_eq!(gb.read(0x9000), 0x7F);
}

#[test]
fn interrupt_enable_byte_is_stored() {
    let mut gb = with_program(&[0xFB, 0xF3]);
    step_n(&mut gb, 1);
    assert_eq!(gb.read(0xFFFF), 1);
    step_n(&mut gb, 1);
    assert_eq!(gb.read(0xFFFF), 0);
}

#[test]
fn cpl_complements_accumulator() {
    let mut gb = with_program(&[0x3E, 0x0F, 0x2F]);
    step_n(&mut gb, 2);
    let r = gb.registers();
    assert_eq!(r.get_a(), 0xF0);
    assert!(r.get_flag(Flag::N));
    assert!(r.get_flag(Flag::H));
}

#[test]
fn rotate_right_through_carry() {
    // LD A,0x01; RRA: bit 0 goes to carry; then RRA again pulls it into bit 7.
    let mut gb = with_program(&[0x3E, 0x01, 0x1F, 0x1F]);
    step_n(&mut gb, 2);
    let r = gb.registers();
    assert_eq!(r.get_a(), 0x00);
    assert!(r.get_flag(Flag::C));
    step_n(&mut gb, 1);
    let r = gb.registers();
    assert_eq!(r.get_a(), 0x80);
    assert!(!r.get_flag(Flag::C));
}

#[test]
fn shift_left_puts_bit_seven_in_carry() {
    let mut gb = with_program(&[0x3E, 0x81, 0x07]);
    step_n(&mut gb, 2);
    let r = gb.registers();
    assert_eq!(r.get_a(), 0x02);
    assert!(r.get_flag(Flag::C));
}

#[test]
fn ld_register_to_register() {
    // LD B,0x33; LD A,B; LD C,A
    let mut gb = with_program(&[0x06, 0x33, 0x78, 0x4F]);
    step_n(&mut gb, 3);
    let r = gb.registers();
    assert_eq!(r.get_a(), 0x33);
    assert_eq!(r.get_c(), 0x33);
}

#[test]
fn jp_hl_jumps_to_pair() {
    let mut gb = with_program(&[0x21, 0x00, 0x03, 0xE9]);
    step_n(&mut gb, 2);
    assert_eq!(gb.registers().get_pc(), 0x0300);
}

#[test]
fn pop_into_register_pair() {
    // LD SP,0xD000; LD BC,0x7788; PUSH BC; POP DE
    let mut gb = with_program(&[0x31, 0x00, 0xD0, 0x01, 0x88, 0x77, 0xC5, 0xD1]);
    step_n(&mut gb, 4);
    assert_eq!(gb.registers().get_de(), 0x7788);
    assert_eq!(gb.registers().get_sp(), 0xD000);
}

#[test]
fn get_next_16_is_little_endian() {
    let mut gb = Gameboy::new();
    gb.write(0x0100, 0x34);
    gb.write(0x0101, 0x12);
    assert_eq!(gb.get_next_16(), 0x1234);
    assert_eq!(gb.registers().get_pc(), 0x0102);
}

#[test]
fn load_rom_copies_and_truncates() {
    let mut gb = Gameboy::new();
    gb.write(0x7FFF, 0xEE);
    let mut rom = vec![0u8; 0x8002];
    rom[0] = 0x11;
    rom[1] = 0x22;
    rom[0x7FFF] = 0x33;
    rom[0x8000] = 0x44;
    rom[0x8001] = 0x55;
    gb.load_rom(&rom);
    assert_eq!(gb.read(0x0000), 0x11);
    assert_eq!(gb.read(0x0001), 0x22);
    assert_eq!(gb.read(0x7FFF), 0x33);
    // Nothing past the 32 KiB cap is copied.
    assert_eq!(gb.read(0x8000), 0x00);
    assert_eq!(gb.read(0x8001), 0x00);
}

#[test]
fn advance_scanline_wraps_after_last_line() {
    let mut gb = Gameboy::new();
    gb.advance_scanline();
    assert_eq!(gb.read(0xFF44), 1);
    gb.write(0xFF44, 152);
    gb.advance_scanline();
    assert_eq!(gb.read(0xFF44), 153);
    gb.advance_scanline();
    assert_eq!(gb.read(0xFF44), 0);
    // A value past the last line also returns to zero.
    gb.write(0xFF44, 200);
    gb.advance_scanline();
    assert_eq!(gb.read(0xFF44), 0);
}

#[test]
fn render_cadence_fires_on_multiples() {
    assert!(gameboy::driver::render_due(0));
    assert!(!gameboy::driver::render_due(1));
    assert!(!gameboy::driver::render_due(0x1FE));
    assert!(gameboy::driver::render_due(0x1FF));
    assert!(gameboy::driver::render_due(0x3FE));
}
