//! The CPU engine: a register file together with one flat 65536-byte address
//! space, and the generalized instruction implementations that the
//! fetch/decode/execute loop dispatches to.
//!
//! All 8- and 16-bit arithmetic wraps modulo 0x100 / 0x10000; that is defined
//! behaviour, never an error.  The state after every operation is pinned down
//! exactly by a spec-level model (`GbView`) and one spec function per
//! instruction.

use vstd::prelude::*;

use crate::decode::{
    cb_wf, cond_holds, decode, decode_cb, spec_cond, spec_decode, spec_decode_cb, CbInstr, Instr,
    Src8,
};
use crate::registers::{
    combine16, flags_byte, get_flag_of, high_byte, low_byte, Flag, Reg16, Reg8, Registers,
};

verus! {

/// A decode failure: the byte that is in no instruction table, whether it was
/// looked up in the prefixed table, and the address it was fetched from.
#[derive(Clone, Copy, PartialEq, Eq, Structural, Debug)]
pub struct DecodeError {
    pub opcode: u8,
    pub prefixed: bool,
    pub addr: u16,
}

/// The mathematical model of the machine: the register file plus the memory
/// contents as a sequence of 65536 bytes.
#[verifier::ext_equal]
pub ghost struct GbView {
    pub regs: Registers,
    pub mem: Seq<u8>,
}

/// A 16-bit value incremented with wrap-around at 0xFFFF.
pub open spec fn wrap_inc16(x: u16) -> u16 {
    if x == 0xFFFF {
        0
    } else {
        (x + 1) as u16
    }
}

/// A 16-bit value decremented with wrap-around at 0.
pub open spec fn wrap_dec16(x: u16) -> u16 {
    if x == 0 {
        0xFFFF
    } else {
        (x - 1) as u16
    }
}

/// Increments a 16-bit value, wrapping 0xFFFF to 0.
pub fn wrapping_inc_16(x: u16) -> (r: u16)
    ensures
        r == wrap_inc16(x),
{
    if x == 0xFFFF {
        0
    } else {
        x + 1
    }
}

/// Decrements a 16-bit value, wrapping 0 to 0xFFFF.
pub fn wrapping_dec_16(x: u16) -> (r: u16)
    ensures
        r == wrap_dec16(x),
{
    if x == 0 {
        0xFFFF
    } else {
        x - 1
    }
}

/// The byte a view holds at an address.
pub open spec fn spec_read(v: GbView, addr: u16) -> u8 {
    v.mem[addr as int]
}

/// The view after storing one byte at an address.
pub open spec fn spec_write(v: GbView, addr: u16, d8: u8) -> GbView {
    GbView { mem: v.mem.update(addr as int, d8), ..v }
}

/// The view after replacing the register file.
pub open spec fn with_regs(v: GbView, regs: Registers) -> GbView {
    GbView { regs, ..v }
}

/// The view after writing the HL pair.
pub open spec fn with_hl(v: GbView, hl: u16) -> GbView {
    with_regs(v, Registers { h: high_byte(hl), l: low_byte(hl), ..v.regs })
}

/// Fetching one byte: the byte at PC, and the view with PC advanced by one
/// (wrapping 0xFFFF to 0).
pub open spec fn spec_fetch8(v: GbView) -> (u8, GbView) {
    (spec_read(v, v.regs.pc), with_regs(v, Registers { pc: wrap_inc16(v.regs.pc), ..v.regs }))
}

/// Fetching a 16-bit immediate little-endian: first byte is the low half,
/// second byte the high half, PC advanced by two.
pub open spec fn spec_fetch16(v: GbView) -> (u16, GbView) {
    let (lo, v1) = spec_fetch8(v);
    let (hi, v2) = spec_fetch8(v1);
    (combine16(hi, lo), v2)
}

/// The machine: register file and memory, owned exclusively and mutated only
/// through the engine's own methods.
pub struct Gameboy {
    registers: Registers,
    memory: Vec<u8>,
}

impl View for Gameboy {
    type V = GbView;

    closed spec fn view(&self) -> GbView {
        GbView { regs: self.registers, mem: self.memory@ }
    }
}

impl Gameboy {
    /// Well-formedness: the memory backs the full 16-bit address space.
    pub open spec fn wf(self) -> bool {
        self@.mem.len() == 0x10000
    }

    /// A machine with zeroed memory and registers, PC at 0x0100.
    pub fn new() -> (gb: Gameboy)
        ensures
            gb.wf(),
            gb@.regs == (Registers {
                a: 0,
                f: 0,
                b: 0,
                c: 0,
                d: 0,
                e: 0,
                h: 0,
                l: 0,
                sp: 0,
                pc: 0x0100,
            }),
            forall|i: int| 0 <= i < 0x10000 ==> gb@.mem[i] == 0,
    {
        let mut memory: Vec<u8> = Vec::new();
        let mut i: usize = 0;
        while i < 0x10000
            invariant
                memory@.len() == i,
                i <= 0x10000,
                forall|j: int| 0 <= j < i ==> memory@[j] == 0,
            decreases 0x10000 - i,
        {
            memory.push(0);
            i += 1;
        }
        Gameboy { registers: Registers::new(), memory }
    }

    /// A copy of the register file, for inspection.
    pub fn registers(&self) -> (r: Registers)
        ensures
            r == self@.regs,
    {
        self.registers
    }

    /// Copies a program image into memory starting at address 0x0000,
    /// truncated at 0x8000 bytes (32 KiB, no bank switching).
    pub fn load_rom(&mut self, rom: &Vec<u8>)
        requires
            old(self).wf(),
        ensures
            final(self).wf(),
            final(self)@.regs == old(self)@.regs,
            forall|i: int| 0 <= i < rom@.len() && i < 0x8000 ==> final(self)@.mem[i] == rom@[i],
            forall|i: int|
                0 <= i < 0x10000 && (i >= rom@.len() || i >= 0x8000) ==> final(self)@.mem[i]
                    == old(self)@.mem[i],
    {
        let ghost orig = self@;
        let mut i: usize = 0;
        while i < rom.len() && i < 0x8000
            invariant
                self.wf(),
                self@.regs == orig.regs,
                i <= rom@.len(),
                i <= 0x8000,
                forall|j: int| 0 <= j < i ==> self@.mem[j] == rom@[j],
                forall|j: int| i <= j < 0x10000 ==> self@.mem[j] == orig.mem[j],
            decreases 0x8000 - i,
        {
            self.memory[i] = rom[i];
            i += 1;
        }
    }

    /// Stores one byte at an address; every address is valid and backed by
    /// storage.
    pub fn write(&mut self, addr: u16, d8: u8)
        requires
            old(self).wf(),
        ensures
            final(self).wf(),
            final(self)@ == spec_write(old(self)@, addr, d8),
    {
        self.memory[addr as usize] = d8;
    }

    /// Reads the byte at an address.
    pub fn read(&self, addr: u16) -> (r: u8)
        requires
            self.wf(),
        ensures
            r == spec_read(self@, addr),
    {
        self.memory[addr as usize]
    }

    /// Fetches the byte at PC and advances PC by one, wrapping 0xFFFF to 0.
    pub fn get_at_pc_incr(&mut self) -> (r: u8)
        requires
            old(self).wf(),
        ensures
            final(self).wf(),
            r == spec_fetch8(old(self)@).0,
            final(self)@ == spec_fetch8(old(self)@).1,
    {
        let pc = self.registers.get_pc();
        let value = self.read(pc);
        let npc = wrapping_inc_16(pc);
        self.registers.set_pc(npc);
        value
    }

    /// Fetches a 16-bit immediate little-endian: the first byte fetched is
    /// the low half, the second the high half.
    pub fn get_next_16(&mut self) -> (r: u16)
        requires
            old(self).wf(),
        ensures
            final(self).wf(),
            r == spec_fetch16(old(self)@).0,
            final(self)@ == spec_fetch16(old(self)@).1,
    {
        let lo = self.get_at_pc_incr();
        let hi = self.get_at_pc_incr();
        ((hi as u16) << 8) | (lo as u16)
    }
}

/// ADD n to A: result wraps modulo 0x100; Z set iff the result is zero, N
/// cleared, H set iff a carry leaves bit 3, C set iff a carry leaves bit 7.
pub open spec fn spec_add_a(v: GbView, n: u8) -> GbView {
    let a = v.regs.a;
    let sum = ((a + n) % 0x100) as u8;
    let z = sum == 0;
    let h = (((a & 0x0F) + (n & 0x0F)) as u16) & 0x10 == 0x10;
    let c = a + n > 0xFF;
    with_regs(v, Registers { a: sum, f: flags_byte(z, false, h, c), ..v.regs })
}

/// ADD a 16-bit pair to HL: result wraps modulo 0x10000; N cleared, H set iff
/// a carry leaves bit 11, C set iff a carry leaves bit 15, Z unaffected.
pub open spec fn spec_add_hl(v: GbView, reg: Reg16) -> GbView {
    let n = v.regs.spec_get_16(reg);
    let hl = combine16(v.regs.h, v.regs.l);
    let sum = ((hl + n) % 0x10000) as u16;
    let h = (((hl & 0x0FFF) + (n & 0x0FFF)) as u32) & 0x1000 == 0x1000;
    let c = hl + n > 0xFFFF;
    with_regs(
        v,
        Registers {
            h: high_byte(sum),
            l: low_byte(sum),
            f: flags_byte(get_flag_of(v.regs.f, Flag::Z), false, h, c),
            ..v.regs
        },
    )
}

/// AND n with A: Z set iff the result is zero; N and C cleared, H set.
pub open spec fn spec_and(v: GbView, n: u8) -> GbView {
    let value = v.regs.a & n;
    with_regs(v, Registers { a: value, f: flags_byte(value == 0, false, true, false), ..v.regs })
}

/// OR n with A: Z set iff the result is zero; N, H and C cleared.
pub open spec fn spec_or(v: GbView, n: u8) -> GbView {
    let value = v.regs.a | n;
    with_regs(v, Registers { a: value, f: flags_byte(value == 0, false, false, false), ..v.regs })
}

/// XOR n with A: Z set iff the result is zero; N, H and C cleared.
pub open spec fn spec_xor(v: GbView, n: u8) -> GbView {
    let value = v.regs.a ^ n;
    with_regs(v, Registers { a: value, f: flags_byte(value == 0, false, false, false), ..v.regs })
}

/// Compare n against A without changing A: Z set iff equal, N set, H set iff
/// the low nibble of A borrows, C set iff A < n.
pub open spec fn spec_cp(v: GbView, n: u8) -> GbView {
    let a = v.regs.a;
    with_regs(v, Registers { f: flags_byte(a == n, true, (a & 0x0F) < (n & 0x0F), a < n), ..v.regs })
}

/// Complement A; N and H set, Z and C kept.
pub open spec fn spec_cpl(v: GbView) -> GbView {
    with_regs(
        v,
        Registers {
            a: !v.regs.a,
            f: flags_byte(get_flag_of(v.regs.f, Flag::Z), true, true, get_flag_of(v.regs.f, Flag::C)),
            ..v.regs
        },
    )
}

/// INC an 8-bit register: wraps 0xFF to 0x00; Z set iff the result is zero, N
/// cleared, H set iff the low nibble carries; the carry flag is read back
/// after the register write, so for every register but F it is untouched.
pub open spec fn spec_inc_8(v: GbView, reg: Reg8) -> GbView {
    let value = v.regs.spec_get_8(reg);
    let h = (((value & 0x0F) + 1) as u16) & 0x10 == 0x10;
    let nv = if value == 0xFF {
        0u8
    } else {
        (value + 1) as u8
    };
    let r1 = v.regs.spec_set_8(reg, nv);
    with_regs(v, Registers { f: flags_byte(nv == 0, false, h, get_flag_of(r1.f, Flag::C)), ..r1 })
}

/// DEC an 8-bit register: wraps 0x00 to 0xFF; Z set iff the result is zero, N
/// set, H set iff the low nibble borrows; the carry flag is read back after
/// the register write, so for every register but F it is untouched.
pub open spec fn spec_dec_8(v: GbView, reg: Reg8) -> GbView {
    let value = v.regs.spec_get_8(reg);
    let h = (value & 0x0F) == 0;
    let nv = if value == 0x00 {
        0xFFu8
    } else {
        (value - 1) as u8
    };
    let r1 = v.regs.spec_set_8(reg, nv);
    with_regs(v, Registers { f: flags_byte(nv == 0, true, h, get_flag_of(r1.f, Flag::C)), ..r1 })
}

/// INC a 16-bit register: wraps modulo 0x10000 and affects no flag.
pub open spec fn spec_inc_16(v: GbView, reg: Reg16) -> GbView {
    with_regs(v, v.regs.spec_set_16(reg, wrap_inc16(v.regs.spec_get_16(reg))))
}

/// DEC a 16-bit register: wraps modulo 0x10000 and affects no flag.
pub open spec fn spec_dec_16(v: GbView, reg: Reg16) -> GbView {
    with_regs(v, v.regs.spec_set_16(reg, wrap_dec16(v.regs.spec_get_16(reg))))
}

/// The interrupt-enable byte at 0xFFFF set to 1 or 0; no vector dispatch
/// exists, the bit is only stored.
pub open spec fn spec_interrupts_enabled(v: GbView, enabled: bool) -> GbView {
    spec_write(
        v,
        0xFFFF,
        if enabled {
            1u8
        } else {
            0u8
        },
    )
}

/// Absolute jump: the 16-bit immediate is always consumed; PC is set to it
/// only when the condition holds.
pub open spec fn spec_jmp(v: GbView, condition: bool) -> GbView {
    let (addr, v1) = spec_fetch16(v);
    if condition {
        with_regs(v1, Registers { pc: addr, ..v1.regs })
    } else {
        v1
    }
}

/// The target of a relative jump: PC (already past the 2-byte instruction)
/// plus the offset byte read as two's-complement, modulo 0x10000.
pub open spec fn spec_jr_dest(pc: u16, offset: u8) -> u16 {
    if offset < 0x80 {
        ((pc + offset) % 0x10000) as u16
    } else {
        ((pc + offset + 0xFF00) % 0x10000) as u16
    }
}

/// Relative jump: the offset byte is always consumed; PC moves by the signed
/// offset only when the condition holds.
pub open spec fn spec_jr(v: GbView, condition: bool) -> GbView {
    let (offset, v1) = spec_fetch8(v);
    if condition {
        with_regs(v1, Registers { pc: spec_jr_dest(v1.regs.pc, offset), ..v1.regs })
    } else {
        v1
    }
}

/// LD a 16-bit register from a 16-bit immediate.
pub open spec fn spec_ld_d16(v: GbView, reg: Reg16) -> GbView {
    let (d16, v1) = spec_fetch16(v);
    with_regs(v1, v1.regs.spec_set_16(reg, d16))
}

/// LD an 8-bit register from an 8-bit immediate.
pub open spec fn spec_ld_d8(v: GbView, reg: Reg8) -> GbView {
    let (d8, v1) = spec_fetch8(v);
    with_regs(v1, v1.regs.spec_set_8(reg, d8))
}

/// LD an 8-bit register from another 8-bit register.
pub open spec fn spec_ld_reg8(v: GbView, dst: Reg8, src: Reg8) -> GbView {
    with_regs(v, v.regs.spec_set_8(dst, v.regs.spec_get_8(src)))
}

/// PUSH: SP moves down by two (wrapping); the high byte lands at the higher
/// of the two freshly reserved slots, the low byte below it.
pub open spec fn spec_push(v: GbView, d16: u16) -> GbView {
    let sp = v.regs.sp;
    let v1 = spec_write(v, wrap_dec16(sp), high_byte(d16));
    let v2 = spec_write(v1, wrap_dec16(wrap_dec16(sp)), low_byte(d16));
    with_regs(v2, Registers { sp: wrap_dec16(wrap_dec16(sp)), ..v2.regs })
}

/// POP: the low byte is read at SP, the high byte at SP+1, and SP moves up by
/// two (wrapping).
pub open spec fn spec_pop(v: GbView) -> (u16, GbView) {
    let sp = v.regs.sp;
    let lo = spec_read(v, sp);
    let hi = spec_read(v, wrap_inc16(sp));
    (
        combine16(hi, lo),
        with_regs(v, Registers { sp: wrap_inc16(wrap_inc16(sp)), ..v.regs }),
    )
}

/// POP into a 16-bit register.
pub open spec fn spec_pop_into(v: GbView, reg: Reg16) -> GbView {
    let (d16, v1) = spec_pop(v);
    with_regs(v1, v1.regs.spec_set_16(reg, d16))
}

/// RES: clear one bit (0..7) of an 8-bit register, leaving the others.
pub open spec fn spec_res(v: GbView, b: u8, reg: Reg8) -> GbView
    recommends
        b < 8,
{
    with_regs(v, v.regs.spec_set_8(reg, v.regs.spec_get_8(reg) & !(1u8 << b)))
}

/// RES on the byte HL points at.
pub open spec fn spec_res_hl(v: GbView, b: u8) -> GbView
    recommends
        b < 8,
{
    let hl = combine16(v.regs.h, v.regs.l);
    spec_write(v, hl, spec_read(v, hl) & !(1u8 << b))
}

/// RET: when the condition holds, pop a 16-bit value into PC.
pub open spec fn spec_ret(v: GbView, condition: bool) -> GbView {
    if condition {
        let (a16, v1) = spec_pop(v);
        with_regs(v1, Registers { pc: a16, ..v1.regs })
    } else {
        v
    }
}

/// RST: push the return address, then jump to a fixed low-memory vector.
pub open spec fn spec_rst(v: GbView, offset: u8) -> GbView {
    let v1 = spec_push(v, v.regs.pc);
    with_regs(v1, Registers { pc: offset as u16, ..v1.regs })
}

/// CALL: the 16-bit target is always consumed; when the condition holds, the
/// address of the next instruction is pushed and PC is set to the target.
pub open spec fn spec_call(v: GbView, condition: bool) -> GbView {
    let (a16, v1) = spec_fetch16(v);
    if condition {
        let v2 = spec_push(v1, v1.regs.pc);
        with_regs(v2, Registers { pc: a16, ..v2.regs })
    } else {
        v1
    }
}

/// The high and low nibbles of a byte exchanged.
pub open spec fn swap_nibbles(r: u8) -> u8 {
    (r >> 4) | ((r & 0x0F) << 4)
}

/// SWAP the nibbles of an 8-bit register; no flag is touched.
pub open spec fn spec_swap(v: GbView, reg: Reg8) -> GbView {
    with_regs(v, v.regs.spec_set_8(reg, swap_nibbles(v.regs.spec_get_8(reg))))
}

/// SWAP the nibbles of the byte HL points at.
pub open spec fn spec_swap_hl(v: GbView) -> GbView {
    let hl = combine16(v.regs.h, v.regs.l);
    spec_write(v, hl, swap_nibbles(spec_read(v, hl)))
}

/// Shift A left by one, the old bit 7 going to the carry flag; the other
/// flags keep their values.
pub open spec fn spec_rot_left_a(v: GbView) -> GbView {
    let a = v.regs.a;
    with_regs(
        v,
        Registers {
            a: a << 1,
            f: flags_byte(
                get_flag_of(v.regs.f, Flag::Z),
                get_flag_of(v.regs.f, Flag::N),
                get_flag_of(v.regs.f, Flag::H),
                a & 0x80 == 0x80,
            ),
            ..v.regs
        },
    )
}

/// Rotate A right through the carry flag: the old bit 0 goes to carry, the
/// old carry becomes bit 7; the other flags keep their values.
pub open spec fn spec_rot_right_a(v: GbView) -> GbView {
    let a = v.regs.a;
    let carry = get_flag_of(v.regs.f, Flag::C);
    let shifted = a >> 1;
    let na = if carry {
        (shifted + 0x80) as u8
    } else {
        shifted
    };
    with_regs(
        v,
        Registers {
            a: na,
            f: flags_byte(
                get_flag_of(v.regs.f, Flag::Z),
                get_flag_of(v.regs.f, Flag::N),
                get_flag_of(v.regs.f, Flag::H),
                a & 0x01 == 0x01,
            ),
            ..v.regs
        },
    )
}

/// The scanline counter at 0xFF44 advanced by one, returning to 0 after 153
/// (values already past the last line also return to 0).
pub open spec fn spec_advance_scanline(v: GbView) -> GbView {
    let ly = spec_read(v, 0xFF44);
    spec_write(
        v,
        0xFF44,
        if ly >= 153 {
            0u8
        } else {
            (ly + 1) as u8
        },
    )
}

/// Where an ALU operand's value comes from, and the view after resolving it
/// (an immediate operand advances PC).
pub open spec fn spec_operand(v: GbView, src: Src8) -> (u8, GbView) {
    match src {
        Src8::Reg(r) => (v.regs.spec_get_8(r), v),
        Src8::HlInd => (spec_read(v, combine16(v.regs.h, v.regs.l)), v),
        Src8::Imm => spec_fetch8(v),
    }
}

/// The machine after one arithmetic/logic instruction; any other instruction
/// leaves the view unchanged here.
pub open spec fn spec_exec_alu(v: GbView, i: Instr) -> GbView {
    match i {
        Instr::Inc8(r) => spec_inc_8(v, r),
        Instr::Dec8(r) => spec_dec_8(v, r),
        Instr::Inc16(rp) => spec_inc_16(v, rp),
        Instr::Dec16(rp) => spec_dec_16(v, rp),
        Instr::AddHl(rp) => spec_add_hl(v, rp),
        Instr::AddA(src) => {
            let (n, v1) = spec_operand(v, src);
            spec_add_a(v1, n)
        },
        Instr::AndA(src) => {
            let (n, v1) = spec_operand(v, src);
            spec_and(v1, n)
        },
        Instr::XorA(src) => {
            let (n, v1) = spec_operand(v, src);
            spec_xor(v1, n)
        },
        Instr::OrA(src) => {
            let (n, v1) = spec_operand(v, src);
            spec_or(v1, n)
        },
        Instr::CpA(src) => {
            let (n, v1) = spec_operand(v, src);
            spec_cp(v1, n)
        },
        Instr::Cpl => spec_cpl(v),
        Instr::RotLeftA => spec_rot_left_a(v),
        Instr::RotRightA => spec_rot_right_a(v),
        _ => v,
    }
}

/// The machine after one load/store instruction; any other instruction
/// leaves the view unchanged here.
pub open spec fn spec_exec_mem(v: GbView, i: Instr) -> GbView {
    match i {
        Instr::LoadHl(r) => with_regs(
            v,
            v.regs.spec_set_8(r, spec_read(v, combine16(v.regs.h, v.regs.l))),
        ),
        Instr::StoreHl(r) => spec_write(v, combine16(v.regs.h, v.regs.l), v.regs.spec_get_8(r)),
        Instr::StoreHlD8 => {
            let (d8, v1) = spec_fetch8(v);
            spec_write(v1, combine16(v1.regs.h, v1.regs.l), d8)
        },
        Instr::StoreAPair(rp) => spec_write(v, v.regs.spec_get_16(rp), v.regs.a),
        Instr::LoadAPair(rp) => with_regs(
            v,
            Registers { a: spec_read(v, v.regs.spec_get_16(rp)), ..v.regs },
        ),
        Instr::StoreAHlInc => {
            let hl = combine16(v.regs.h, v.regs.l);
            with_hl(spec_write(v, hl, v.regs.a), wrap_inc16(hl))
        },
        Instr::LoadAHlInc => {
            let hl = combine16(v.regs.h, v.regs.l);
            with_hl(with_regs(v, Registers { a: spec_read(v, hl), ..v.regs }), wrap_inc16(hl))
        },
        Instr::StoreAHlDec => {
            let hl = combine16(v.regs.h, v.regs.l);
            with_hl(spec_write(v, hl, v.regs.a), wrap_dec16(hl))
        },
        Instr::LoadAHlDec => {
            let hl = combine16(v.regs.h, v.regs.l);
            with_hl(with_regs(v, Registers { a: spec_read(v, hl), ..v.regs }), wrap_dec16(hl))
        },
        Instr::StoreSp => {
            let (a16, v1) = spec_fetch16(v);
            let v2 = spec_write(v1, a16, high_byte(v1.regs.sp));
            spec_write(v2, wrap_inc16(a16), low_byte(v2.regs.sp))
        },
        Instr::StoreHighImm => {
            let (a8, v1) = spec_fetch8(v);
            spec_write(v1, (0xFF00 + a8) as u16, v1.regs.a)
        },
        Instr::LoadHighImm => {
            let (a8, v1) = spec_fetch8(v);
            with_regs(v1, Registers { a: spec_read(v1, (0xFF00 + a8) as u16), ..v1.regs })
        },
        Instr::StoreHighC => spec_write(v, (0xFF00 + v.regs.c) as u16, v.regs.a),
        Instr::StoreAImm16 => {
            let (a16, v1) = spec_fetch16(v);
            spec_write(v1, a16, v1.regs.a)
        },
        Instr::LoadAImm16 => {
            let (a16, v1) = spec_fetch16(v);
            with_regs(v1, Registers { a: spec_read(v1, a16), ..v1.regs })
        },
        _ => v,
    }
}

/// The machine after one control-flow or interrupt-toggle instruction; any
/// other instruction leaves the view unchanged here.
pub open spec fn spec_exec_ctrl(v: GbView, i: Instr) -> GbView {
    match i {
        Instr::Jp(c) => spec_jmp(v, spec_cond(v.regs, c)),
        Instr::JpHl => with_regs(v, Registers { pc: combine16(v.regs.h, v.regs.l), ..v.regs }),
        Instr::Jr(c) => spec_jr(v, spec_cond(v.regs, c)),
        Instr::Call(c) => spec_call(v, spec_cond(v.regs, c)),
        Instr::Ret(c) => spec_ret(v, spec_cond(v.regs, c)),
        Instr::Rst(target) => spec_rst(v, target),
        Instr::Push(rp) => spec_push(v, v.regs.spec_get_16(rp)),
        Instr::Pop(rp) => spec_pop_into(v, rp),
        Instr::SetInterrupts(enabled) => spec_interrupts_enabled(v, enabled),
        _ => v,
    }
}

/// The machine after one decoded instruction from the primary table,
/// starting from the view with the opcode byte already consumed.  `Prefix`
/// and `Halt` leave the view unchanged; the step function handles both
/// itself.
pub open spec fn spec_exec_instr(v: GbView, i: Instr) -> GbView {
    match i {
        Instr::Nop => v,
        Instr::Stop => v,
        Instr::Halt => v,
        Instr::Prefix => v,
        Instr::LdD16(rp) => spec_ld_d16(v, rp),
        Instr::LdD8(r) => spec_ld_d8(v, r),
        Instr::LdReg8(dst, src) => spec_ld_reg8(v, dst, src),
        Instr::Inc8(_) => spec_exec_alu(v, i),
        Instr::Dec8(_) => spec_exec_alu(v, i),
        Instr::Inc16(_) => spec_exec_alu(v, i),
        Instr::Dec16(_) => spec_exec_alu(v, i),
        Instr::AddHl(_) => spec_exec_alu(v, i),
        Instr::AddA(_) => spec_exec_alu(v, i),
        Instr::AndA(_) => spec_exec_alu(v, i),
        Instr::XorA(_) => spec_exec_alu(v, i),
        Instr::OrA(_) => spec_exec_alu(v, i),
        Instr::CpA(_) => spec_exec_alu(v, i),
        Instr::Cpl => spec_exec_alu(v, i),
        Instr::RotLeftA => spec_exec_alu(v, i),
        Instr::RotRightA => spec_exec_alu(v, i),
        Instr::LoadHl(_) => spec_exec_mem(v, i),
        Instr::StoreHl(_) => spec_exec_mem(v, i),
        Instr::StoreHlD8 => spec_exec_mem(v, i),
        Instr::StoreAPair(_) => spec_exec_mem(v, i),
        Instr::LoadAPair(_) => spec_exec_mem(v, i),
        Instr::StoreAHlInc => spec_exec_mem(v, i),
        Instr::LoadAHlInc => spec_exec_mem(v, i),
        Instr::StoreAHlDec => spec_exec_mem(v, i),
        Instr::LoadAHlDec => spec_exec_mem(v, i),
        Instr::StoreSp => spec_exec_mem(v, i),
        Instr::StoreHighImm => spec_exec_mem(v, i),
        Instr::LoadHighImm => spec_exec_mem(v, i),
        Instr::StoreHighC => spec_exec_mem(v, i),
        Instr::StoreAImm16 => spec_exec_mem(v, i),
        Instr::LoadAImm16 => spec_exec_mem(v, i),
        Instr::Jp(_) => spec_exec_ctrl(v, i),
        Instr::JpHl => spec_exec_ctrl(v, i),
        Instr::Jr(_) => spec_exec_ctrl(v, i),
        Instr::Call(_) => spec_exec_ctrl(v, i),
        Instr::Ret(_) => spec_exec_ctrl(v, i),
        Instr::Rst(_) => spec_exec_ctrl(v, i),
        Instr::Push(_) => spec_exec_ctrl(v, i),
        Instr::Pop(_) => spec_exec_ctrl(v, i),
        Instr::SetInterrupts(_) => spec_exec_ctrl(v, i),
    }
}

/// The machine after one decoded instruction from the 0xCB-prefixed table,
/// starting from the view with both opcode bytes already consumed.
pub open spec fn spec_exec_cb(v: GbView, ci: CbInstr) -> GbView {
    match ci {
        CbInstr::Swap(r) => spec_swap(v, r),
        CbInstr::SwapHl => spec_swap_hl(v),
        CbInstr::Res(b, r) => spec_res(v, b, r),
        CbInstr::ResHl(b) => spec_res_hl(v, b),
    }
}

/// One whole step of the engine: fetch the opcode at PC, decode it, execute
/// it.  The result is the next machine state together with the continuation
/// signal: `Ok(true)` to continue, `Ok(false)` for HALT, and `Err` carrying
/// the offending byte and its address for a byte in neither table.
pub open spec fn spec_step(v: GbView) -> (GbView, Result<bool, DecodeError>) {
    let pc0 = v.regs.pc;
    let (opcode, v1) = spec_fetch8(v);
    match spec_decode(opcode) {
        Option::None => (v1, Result::Err(DecodeError { opcode, prefixed: false, addr: pc0 })),
        Option::Some(i) => match i {
            Instr::Prefix => {
                let pc1 = v1.regs.pc;
                let (sub, v2) = spec_fetch8(v1);
                match spec_decode_cb(sub) {
                    Option::None => (
                        v2,
                        Result::Err(DecodeError { opcode: sub, prefixed: true, addr: pc1 }),
                    ),
                    Option::Some(ci) => (spec_exec_cb(v2, ci), Result::Ok(true)),
                }
            },
            Instr::Halt => (v1, Result::Ok(false)),
            _ => (spec_exec_instr(v1, i), Result::Ok(true)),
        },
    }
}

impl Gameboy {
    /// ADD n to the accumulator.
    pub fn add_a(&mut self, n: u8)
        requires
            old(self).wf(),
        ensures
            final(self).wf(),
            final(self)@ == spec_add_a(old(self)@, n),
    {
        let a = self.registers.get_a();
        let wide: u16 = a as u16 + n as u16;
        let sum: u8 = (wide % 0x100) as u8;
        let h = ((a & 0x0F) as u16 + (n & 0x0F) as u16) & 0x10 == 0x10;
        let f = crate::registers::compose_flags(sum == 0, false, h, wide > 0xFF);
        self.registers.set_a(sum);
        self.registers.set_f(f);
    }

    /// ADD a 16-bit pair into HL.
    pub fn add_hl(&mut self, reg: Reg16)
        requires
            old(self).wf(),
        ensures
            final(self).wf(),
            final(self)@ == spec_add_hl(old(self)@, reg),
    {
        let n = self.registers.get_reg_16(reg);
        let hl = self.registers.get_hl();
        let wide: u32 = hl as u32 + n as u32;
        let sum: u16 = (wide % 0x10000) as u16;
        let h = ((hl & 0x0FFF) as u32 + (n & 0x0FFF) as u32) & 0x1000 == 0x1000;
        let z = self.registers.get_flag(Flag::Z);
        let f = crate::registers::compose_flags(z, false, h, wide > 0xFFFF);
        self.registers.set_hl(sum);
        self.registers.set_f(f);
    }

    /// AND n into the accumulator.
    pub fn and(&mut self, n: u8)
        requires
            old(self).wf(),
        ensures
            final(self).wf(),
            final(self)@ == spec_and(old(self)@, n),
    {
        let value = self.registers.get_a() & n;
        self.registers.set_a(value);
        let f = crate::registers::compose_flags(value == 0, false, true, false);
        self.registers.set_f(f);
    }

    /// OR n into the accumulator.
    pub fn or(&mut self, n: u8)
        requires
            old(self).wf(),
        ensures
            final(self).wf(),
            final(self)@ == spec_or(old(self)@, n),
    {
        let value = self.registers.get_a() | n;
        self.registers.set_a(value);
        let f = crate::registers::compose_flags(value == 0, false, false, false);
        self.registers.set_f(f);
    }

    /// XOR n into the accumulator.
    pub fn xor(&mut self, n: u8)
        requires
            old(self).wf(),
        ensures
            final(self).wf(),
            final(self)@ == spec_xor(old(self)@, n),
    {
        let value = self.registers.get_a() ^ n;
        self.registers.set_a(value);
        let f = crate::registers::compose_flags(value == 0, false, false, false);
        self.registers.set_f(f);
    }

    /// Compare n against the accumulator (a non-mutating subtract).
    pub fn cp(&mut self, n: u8)
        requires
            old(self).wf(),
        ensures
            final(self).wf(),
            final(self)@ == spec_cp(old(self)@, n),
    {
        let a = self.registers.get_a();
        let f = crate::registers::compose_flags(a == n, true, (a & 0x0F) < (n & 0x0F), a < n);
        self.registers.set_f(f);
    }

    /// CALL: the 16-bit target is consumed whether or not the call is taken;
    /// when it is, the address of the next instruction is pushed first.
    pub fn call(&mut self, condition: bool)
        requires
            old(self).wf(),
        ensures
            final(self).wf(),
            final(self)@ == spec_call(old(self)@, condition),
    {
        let a16 = self.get_next_16();
        if condition {
            let pc = self.registers.get_pc();
            self.push_d16(pc);
            self.registers.set_pc(a16);
        }
    }

    /// Complement the accumulator.
    pub fn cpl(&mut self)
        requires
            old(self).wf(),
        ensures
            final(self).wf(),
            final(self)@ == spec_cpl(old(self)@),
    {
        let a = self.registers.get_a();
        self.registers.set_a(!a);
        let z = self.registers.get_flag(Flag::Z);
        let c = self.registers.get_flag(Flag::C);
        let f = crate::registers::compose_flags(z, true, true, c);
        self.registers.set_f(f);
    }

    /// INC an 8-bit register; the carry flag is never modified (for every
    /// register other than F itself).
    pub fn inc_8(&mut self, reg: Reg8)
        requires
            old(self).wf(),
        ensures
            final(self).wf(),
            final(self)@ == spec_inc_8(old(self)@, reg),
            reg != Reg8::F ==> final(self)@.regs.spec_get_flag(Flag::C) == old(
                self,
            )@.regs.spec_get_flag(Flag::C),
    {
        let value = self.registers.get_reg_8(reg);
        let h = ((value & 0x0F) as u16 + 1) & 0x10 == 0x10;
        let nv = if value == 0xFF {
            0
        } else {
            value + 1
        };
        self.registers.set_reg_8(reg, nv);
        let c = self.registers.get_flag(Flag::C);
        let f = crate::registers::compose_flags(nv == 0, false, h, c);
        self.registers.set_f(f);
        proof {
            crate::registers::lemma_flags_byte(nv == 0, false, h, c);
        }
    }

    /// DEC an 8-bit register; the carry flag is never modified (for every
    /// register other than F itself).
    pub fn dec_8(&mut self, reg: Reg8)
        requires
            old(self).wf(),
        ensures
            final(self).wf(),
            final(self)@ == spec_dec_8(old(self)@, reg),
            reg != Reg8::F ==> final(self)@.regs.spec_get_flag(Flag::C) == old(
                self,
            )@.regs.spec_get_flag(Flag::C),
    {
        let value = self.registers.get_reg_8(reg);
        let h = (value & 0x0F) == 0;
        let nv = if value == 0x00 {
            0xFF
        } else {
            value - 1
        };
        self.registers.set_reg_8(reg, nv);
        let c = self.registers.get_flag(Flag::C);
        let f = crate::registers::compose_flags(nv == 0, true, h, c);
        self.registers.set_f(f);
        proof {
            crate::registers::lemma_flags_byte(nv == 0, true, h, c);
        }
    }

    /// INC a 16-bit register, wrapping modulo 0x10000; no flag is affected.
    pub fn inc_16(&mut self, reg: Reg16)
        requires
            old(self).wf(),
        ensures
            final(self).wf(),
            final(self)@ == spec_inc_16(old(self)@, reg),
    {
        let value = self.registers.get_reg_16(reg);
        let nv = wrapping_inc_16(value);
        self.registers.set_reg_16(reg, nv);
    }

    /// DEC a 16-bit register, wrapping modulo 0x10000; no flag is affected.
    pub fn dec_16(&mut self, reg: Reg16)
        requires
            old(self).wf(),
        ensures
            final(self).wf(),
            final(self)@ == spec_dec_16(old(self)@, reg),
    {
        let value = self.registers.get_reg_16(reg);
        let nv = wrapping_dec_16(value);
        self.registers.set_reg_16(reg, nv);
    }

    /// Sets or clears the interrupt-enable byte at 0xFFFF.
    pub fn interrupts_enabled(&mut self, enabled: bool)
        requires
            old(self).wf(),
        ensures
            final(self).wf(),
            final(self)@ == spec_interrupts_enabled(old(self)@, enabled),
    {
        self.write(
            0xFFFF,
            if enabled {
                1
            } else {
                0
            },
        );
    }

    /// Absolute jump; the 16-bit immediate is consumed whether or not the
    /// jump is taken.
    pub fn jmp(&mut self, condition: bool)
        requires
            old(self).wf(),
        ensures
            final(self).wf(),
            final(self)@ == spec_jmp(old(self)@, condition),
    {
        let addr = self.get_next_16();
        if condition {
            self.registers.set_pc(addr);
        }
    }

    /// Relative jump; the offset byte is consumed whether or not the jump is
    /// taken.
    pub fn jr(&mut self, condition: bool)
        requires
            old(self).wf(),
        ensures
            final(self).wf(),
            final(self)@ == spec_jr(old(self)@, condition),
    {
        let offset = self.get_at_pc_incr();
        if condition {
            let ext: u16 = if offset < 0x80 {
                offset as u16
            } else {
                offset as u16 + 0xFF00
            };
            let pc = self.registers.get_pc();
            let dest: u16 = ((pc as u32 + ext as u32) % 0x10000) as u16;
            self.registers.set_pc(dest);
        }
    }

    /// LD a 16-bit register from a 16-bit immediate.
    pub fn ld_d16(&mut self, reg: Reg16)
        requires
            old(self).wf(),
        ensures
            final(self).wf(),
            final(self)@ == spec_ld_d16(old(self)@, reg),
    {
        let d16 = self.get_next_16();
        self.registers.set_reg_16(reg, d16);
    }

    /// LD an 8-bit register from an 8-bit immediate.
    pub fn ld_d8(&mut self, reg: Reg8)
        requires
            old(self).wf(),
        ensures
            final(self).wf(),
            final(self)@ == spec_ld_d8(old(self)@, reg),
    {
        let d8 = self.get_at_pc_incr();
        self.registers.set_reg_8(reg, d8);
    }

    /// LD an 8-bit register from another 8-bit register.
    pub fn ld_reg8(&mut self, dst: Reg8, src: Reg8)
        requires
            old(self).wf(),
        ensures
            final(self).wf(),
            final(self)@ == spec_ld_reg8(old(self)@, dst, src),
    {
        let d8 = self.registers.get_reg_8(src);
        self.registers.set_reg_8(dst, d8);
    }

    /// PUSH a 16-bit value onto the stack, which grows downward.
    pub fn push_d16(&mut self, d16: u16)
        requires
            old(self).wf(),
        ensures
            final(self).wf(),
            final(self)@ == spec_push(old(self)@, d16),
    {
        let sp = self.registers.get_sp();
        let sp1 = wrapping_dec_16(sp);
        let sp2 = wrapping_dec_16(sp1);
        self.write(sp1, (d16 >> 8) as u8);
        self.write(sp2, (d16 & 0xFF) as u8);
        self.registers.set_sp(sp2);
    }

    /// POP a 16-bit value off the stack.
    pub fn pop_d16(&mut self) -> (r: u16)
        requires
            old(self).wf(),
        ensures
            final(self).wf(),
            r == spec_pop(old(self)@).0,
            final(self)@ == spec_pop(old(self)@).1,
    {
        let sp = self.registers.get_sp();
        let lo = self.read(sp);
        let sp1 = wrapping_inc_16(sp);
        let hi = self.read(sp1);
        let sp2 = wrapping_inc_16(sp1);
        self.registers.set_sp(sp2);
        ((hi as u16) << 8) | (lo as u16)
    }

    /// POP a 16-bit value off the stack into a register.
    pub fn pop_d16_into(&mut self, reg: Reg16)
        requires
            old(self).wf(),
        ensures
            final(self).wf(),
            final(self)@ == spec_pop_into(old(self)@, reg),
    {
        let d16 = self.pop_d16();
        self.registers.set_reg_16(reg, d16);
    }

    /// RES: clear bit b of an 8-bit register, leaving the other bits.
    pub fn res(&mut self, b: u8, reg: Reg8)
        requires
            old(self).wf(),
            b < 8,
        ensures
            final(self).wf(),
            final(self)@ == spec_res(old(self)@, b, reg),
    {
        let mask: u8 = !(0x01 << b);
        let r = self.registers.get_reg_8(reg);
        self.registers.set_reg_8(reg, r & mask);
    }

    /// RET: when the condition holds, pop the return address into PC.
    pub fn ret(&mut self, condition: bool)
        requires
            old(self).wf(),
        ensures
            final(self).wf(),
            final(self)@ == spec_ret(old(self)@, condition),
    {
        if condition {
            let a16 = self.pop_d16();
            self.registers.set_pc(a16);
        }
    }

    /// RST: push the return address, then jump unconditionally to a fixed
    /// low-memory vector.
    pub fn rst(&mut self, offset: u8)
        requires
            old(self).wf(),
        ensures
            final(self).wf(),
            final(self)@ == spec_rst(old(self)@, offset),
    {
        let pc = self.registers.get_pc();
        self.push_d16(pc);
        self.registers.set_pc(offset as u16);
    }

    /// STOP: consumes its opcode byte and otherwise does nothing.
    pub fn stop(&mut self)
        requires
            old(self).wf(),
        ensures
            final(self).wf(),
            *final(self) == *old(self),
    {
    }

    /// SWAP the high and low nibbles of an 8-bit register.
    pub fn swap(&mut self, reg: Reg8)
        requires
            old(self).wf(),
        ensures
            final(self).wf(),
            final(self)@ == spec_swap(old(self)@, reg),
    {
        let mut r = self.registers.get_reg_8(reg);
        let r_bottom = r & 0x0F;
        r >>= 4;
        r |= r_bottom << 4;
        self.registers.set_reg_8(reg, r);
    }

    /// Resolves an 8-bit ALU operand: a register, the byte HL points at, or
    /// an immediate byte (which advances PC).
    fn operand(&mut self, src: Src8) -> (n: u8)
        requires
            old(self).wf(),
        ensures
            final(self).wf(),
            n == spec_operand(old(self)@, src).0,
            final(self)@ == spec_operand(old(self)@, src).1,
    {
        match src {
            Src8::Reg(r) => self.registers.get_reg_8(r),
            Src8::HlInd => {
                let hl = self.registers.get_hl();
                self.read(hl)
            },
            Src8::Imm => self.get_at_pc_incr(),
        }
    }

    /// Executes one arithmetic/logic instruction; any other instruction is
    /// left to its own group and does nothing here.
    fn execute_alu(&mut self, i: Instr)
        requires
            old(self).wf(),
        ensures
            final(self).wf(),
            final(self)@ == spec_exec_alu(old(self)@, i),
    {
        match i {
            Instr::Inc8(r) => self.inc_8(r),
            Instr::Dec8(r) => self.dec_8(r),
            Instr::Inc16(rp) => self.inc_16(rp),
            Instr::Dec16(rp) => self.dec_16(rp),
            Instr::AddHl(rp) => self.add_hl(rp),
            Instr::AddA(src) => {
                let n = self.operand(src);
                self.add_a(n);
            },
            Instr::AndA(src) => {
                let n = self.operand(src);
                self.and(n);
            },
            Instr::XorA(src) => {
                let n = self.operand(src);
                self.xor(n);
            },
            Instr::OrA(src) => {
                let n = self.operand(src);
                self.or(n);
            },
            Instr::CpA(src) => {
                let n = self.operand(src);
                self.cp(n);
            },
            Instr::Cpl => self.cpl(),
            Instr::RotLeftA => {
                let a = self.registers.get_a();
                let z = self.registers.get_flag(Flag::Z);
                let nf = self.registers.get_flag(Flag::N);
                let hf = self.registers.get_flag(Flag::H);
                let f = crate::registers::compose_flags(z, nf, hf, a & 0x80 == 0x80);
                self.registers.set_a(a << 1);
                self.registers.set_f(f);
            },
            Instr::RotRightA => {
                let a = self.registers.get_a();
                let carry = self.registers.get_flag(Flag::C);
                let z = self.registers.get_flag(Flag::Z);
                let nf = self.registers.get_flag(Flag::N);
                let hf = self.registers.get_flag(Flag::H);
                let f = crate::registers::compose_flags(z, nf, hf, a & 0x01 == 0x01);
                let shifted = a >> 1;
                proof {
                    assert(a >> 1 < 0x80) by (bit_vector);
                }
                let na = if carry {
                    shifted + 0x80
                } else {
                    shifted
                };
                self.registers.set_a(na);
                self.registers.set_f(f);
            },
            _ => {},
        }
    }

    /// Executes one control-flow or interrupt-toggle instruction; any other
    /// instruction is left to its own group and does nothing here.
    fn execute_ctrl(&mut self, i: Instr)
        requires
            old(self).wf(),
        ensures
            final(self).wf(),
            final(self)@ == spec_exec_ctrl(old(self)@, i),
    {
        match i {
            Instr::Jp(c) => {
                let cond = cond_holds(&self.registers, c);
                self.jmp(cond);
            },
            Instr::JpHl => {
                let hl = self.registers.get_hl();
                self.registers.set_pc(hl);
            },
            Instr::Jr(c) => {
                let cond = cond_holds(&self.registers, c);
                self.jr(cond);
            },
            Instr::Call(c) => {
                let cond = cond_holds(&self.registers, c);
                self.call(cond);
            },
            Instr::Ret(c) => {
                let cond = cond_holds(&self.registers, c);
                self.ret(cond);
            },
            Instr::Rst(target) => self.rst(target),
            Instr::Push(rp) => {
                let d16 = self.registers.get_reg_16(rp);
                self.push_d16(d16);
            },
            Instr::Pop(rp) => self.pop_d16_into(rp),
            Instr::SetInterrupts(enabled) => self.interrupts_enabled(enabled),
            _ => {},
        }
    }

    /// Executes one load/store instruction; any other instruction is left to
    /// its own group and does nothing here.
    fn execute_mem(&mut self, i: Instr)
        requires
            old(self).wf(),
        ensures
            final(self).wf(),
            final(self)@ == spec_exec_mem(old(self)@, i),
    {
        match i {
            Instr::LoadHl(r) => {
                let hl = self.registers.get_hl();
                let d8 = self.read(hl);
                self.registers.set_reg_8(r, d8);
            },
            Instr::StoreHl(r) => {
                let d8 = self.registers.get_reg_8(r);
                let hl = self.registers.get_hl();
                self.write(hl, d8);
            },
            Instr::StoreHlD8 => {
                let d8 = self.get_at_pc_incr();
                let hl = self.registers.get_hl();
                self.write(hl, d8);
            },
            Instr::StoreAPair(rp) => {
                let addr = self.registers.get_reg_16(rp);
                let a = self.registers.get_a();
                self.write(addr, a);
            },
            Instr::LoadAPair(rp) => {
                let addr = self.registers.get_reg_16(rp);
                let d8 = self.read(addr);
                self.registers.set_a(d8);
            },
            Instr::StoreAHlInc => {
                let a = self.registers.get_a();
                let hl = self.registers.get_hl();
                self.write(hl, a);
                let nhl = wrapping_inc_16(hl);
                self.registers.set_hl(nhl);
            },
            Instr::LoadAHlInc => {
                let hl = self.registers.get_hl();
                let d8 = self.read(hl);
                self.registers.set_a(d8);
                let nhl = wrapping_inc_16(hl);
                self.registers.set_hl(nhl);
            },
            Instr::StoreAHlDec => {
                let a = self.registers.get_a();
                let hl = self.registers.get_hl();
                self.write(hl, a);
                let nhl = wrapping_dec_16(hl);
                self.registers.set_hl(nhl);
            },
            Instr::LoadAHlDec => {
                let hl = self.registers.get_hl();
                let d8 = self.read(hl);
                self.registers.set_a(d8);
                let nhl = wrapping_dec_16(hl);
                self.registers.set_hl(nhl);
            },
            Instr::StoreSp => {
                let sp = self.registers.get_sp();
                let a16 = self.get_next_16();
                self.write(a16, (sp >> 8) as u8);
                let a16b = wrapping_inc_16(a16);
                self.write(a16b, (sp & 0xFF) as u8);
            },
            Instr::StoreHighImm => {
                let offset = self.get_at_pc_incr();
                let a = self.registers.get_a();
                self.write(0xFF00 + offset as u16, a);
            },
            Instr::LoadHighImm => {
                let a8 = self.get_at_pc_incr();
                let d8 = self.read(0xFF00 + a8 as u16);
                self.registers.set_a(d8);
            },
            Instr::StoreHighC => {
                let c = self.registers.get_c();
                let a = self.registers.get_a();
                self.write(0xFF00 + c as u16, a);
            },
            Instr::StoreAImm16 => {
                let addr = self.get_next_16();
                let a = self.registers.get_a();
                self.write(addr, a);
            },
            Instr::LoadAImm16 => {
                let a16 = self.get_next_16();
                let d8 = self.read(a16);
                self.registers.set_a(d8);
            },
            _ => {},
        }
    }

    /// Executes one decoded instruction from the primary table.  `Prefix` and
    /// `Halt` never reach this method: the step loop handles both itself.
    pub fn execute(&mut self, i: Instr)
        requires
            old(self).wf(),
            i != Instr::Prefix,
            i != Instr::Halt,
        ensures
            final(self).wf(),
            final(self)@ == spec_exec_instr(old(self)@, i),
    {
        match i {
            Instr::Nop => {},
            Instr::Stop => self.stop(),
            Instr::Halt => {},
            Instr::Prefix => {},
            Instr::LdD16(rp) => self.ld_d16(rp),
            Instr::LdD8(r) => self.ld_d8(r),
            Instr::LdReg8(dst, src) => self.ld_reg8(dst, src),
            Instr::Inc8(_)
            | Instr::Dec8(_)
            | Instr::Inc16(_)
            | Instr::Dec16(_)
            | Instr::AddHl(_)
            | Instr::AddA(_)
            | Instr::AndA(_)
            | Instr::XorA(_)
            | Instr::OrA(_)
            | Instr::CpA(_)
            | Instr::Cpl
            | Instr::RotLeftA
            | Instr::RotRightA => self.execute_alu(i),
            Instr::Jp(_)
            | Instr::JpHl
            | Instr::Jr(_)
            | Instr::Call(_)
            | Instr::Ret(_)
            | Instr::Rst(_)
            | Instr::Push(_)
            | Instr::Pop(_)
            | Instr::SetInterrupts(_) => self.execute_ctrl(i),
            _ => self.execute_mem(i),
        }
    }

    /// Executes one decoded instruction from the 0xCB-prefixed table.
    pub fn execute_cb(&mut self, ci: CbInstr)
        requires
            old(self).wf(),
            cb_wf(ci),
        ensures
            final(self).wf(),
            final(self)@ == spec_exec_cb(old(self)@, ci),
    {
        match ci {
            CbInstr::Swap(r) => self.swap(r),
            CbInstr::SwapHl => {
                let hl = self.registers.get_hl();
                let mut r = self.read(hl);
                let r_bottom = r & 0x0F;
                r >>= 4;
                r |= r_bottom << 4;
                self.write(hl, r);
            },
            CbInstr::Res(b, r) => self.res(b, r),
            CbInstr::ResHl(b) => {
                let hl = self.registers.get_hl();
                let d8 = self.read(hl);
                let mask: u8 = !(0x01 << b);
                self.write(hl, d8 & mask);
            },
        }
    }

    /// Fetches the opcode at PC (advancing PC), decodes and executes it.
    ///
    /// Returns `Ok(true)` to continue, `Ok(false)` when a HALT instruction
    /// asks the engine to stop stepping (the choice documented here: HALT
    /// halts the engine rather than idling), and `Err` with the offending
    /// byte and its address when the opcode is in neither instruction table —
    /// the engine halts cleanly, it never aborts.
    pub fn step(&mut self) -> (r: Result<bool, DecodeError>)
        requires
            old(self).wf(),
        ensures
            final(self).wf(),
            final(self)@ == spec_step(old(self)@).0,
            r == spec_step(old(self)@).1,
    {
        let pc0 = self.registers.get_pc();
        let instruction = self.get_at_pc_incr();
        match decode(instruction) {
            None => Err(DecodeError { opcode: instruction, prefixed: false, addr: pc0 }),
            Some(Instr::Prefix) => {
                let pc1 = self.registers.get_pc();
                let prefixed_instruction = self.get_at_pc_incr();
                match decode_cb(prefixed_instruction) {
                    None => Err(
                        DecodeError { opcode: prefixed_instruction, prefixed: true, addr: pc1 },
                    ),
                    Some(ci) => {
                        self.execute_cb(ci);
                        Ok(true)
                    },
                }
            },
            Some(Instr::Halt) => Ok(false),
            Some(i) => {
                self.execute(i);
                Ok(true)
            },
        }
    }

    /// Advances the scanline counter at 0xFF44, returning to 0 after line
    /// 153.
    pub fn advance_scanline(&mut self)
        requires
            old(self).wf(),
        ensures
            final(self).wf(),
            final(self)@ == spec_advance_scanline(old(self)@),
    {
        let ly = self.read(0xFF44);
        let next = if ly >= 153 {
            0
        } else {
            ly + 1
        };
        self.write(0xFF44, next);
    }
}

} // verus!
