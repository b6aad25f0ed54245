//! The instruction tables: each opcode byte maps to a decoded instruction
//! descriptor (operation kind plus operand source), or to nothing when the
//! byte is not in the table.  A second table, reached through the prefix
//! opcode 0xCB, holds the bit-manipulation operations.

use vstd::prelude::*;

use crate::registers::{get_flag_of, Flag, Reg16, Reg8, Registers};

verus! {

/// Where an 8-bit ALU operand comes from: a register, the byte HL points at,
/// or an immediate byte.
#[derive(Clone, Copy, PartialEq, Eq, Structural, Debug)]
pub enum Src8 {
    Reg(Reg8),
    HlInd,
    Imm,
}

/// A jump/call/return condition: unconditional, or one flag set or clear.
#[derive(Clone, Copy, PartialEq, Eq, Structural, Debug)]
pub enum Cond {
    Always,
    NotZero,
    Zero,
    NotCarry,
    Carry,
}

/// Whether a condition holds of a register file.
pub open spec fn spec_cond(regs: Registers, c: Cond) -> bool {
    match c {
        Cond::Always => true,
        Cond::NotZero => !get_flag_of(regs.f, Flag::Z),
        Cond::Zero => get_flag_of(regs.f, Flag::Z),
        Cond::NotCarry => !get_flag_of(regs.f, Flag::C),
        Cond::Carry => get_flag_of(regs.f, Flag::C),
    }
}

/// Evaluates a condition against the register file.
pub fn cond_holds(regs: &Registers, c: Cond) -> (r: bool)
    ensures
        r == spec_cond(*regs, c),
{
    match c {
        Cond::Always => true,
        Cond::NotZero => !regs.get_flag(Flag::Z),
        Cond::Zero => regs.get_flag(Flag::Z),
        Cond::NotCarry => !regs.get_flag(Flag::C),
        Cond::Carry => regs.get_flag(Flag::C),
    }
}

/// A decoded instruction from the primary opcode table.
#[derive(Clone, Copy, PartialEq, Eq, Structural, Debug)]
pub enum Instr {
    /// No operation.
    Nop,
    /// Consumes its opcode byte and otherwise does nothing.
    Stop,
    /// Signals the engine to stop stepping.
    Halt,
    /// The 0xCB escape into the bit-operations table.
    Prefix,
    /// reg16 <- d16.
    LdD16(Reg16),
    /// reg8 <- d8.
    LdD8(Reg8),
    /// dst <- src.
    LdReg8(Reg8, Reg8),
    /// reg8 <- [HL].
    LoadHl(Reg8),
    /// [HL] <- reg8.
    StoreHl(Reg8),
    /// [HL] <- d8.
    StoreHlD8,
    /// [pair] <- A.
    StoreAPair(Reg16),
    /// A <- [pair].
    LoadAPair(Reg16),
    /// [HL] <- A, then HL incremented.
    StoreAHlInc,
    /// A <- [HL], then HL incremented.
    LoadAHlInc,
    /// [HL] <- A, then HL decremented.
    StoreAHlDec,
    /// A <- [HL], then HL decremented.
    LoadAHlDec,
    /// [a16] <- SP, high byte first.
    StoreSp,
    /// [0xFF00 + a8] <- A.
    StoreHighImm,
    /// A <- [0xFF00 + a8].
    LoadHighImm,
    /// [0xFF00 + C] <- A.
    StoreHighC,
    /// [a16] <- A.
    StoreAImm16,
    /// A <- [a16].
    LoadAImm16,
    /// INC reg8; the carry flag is untouched.
    Inc8(Reg8),
    /// DEC reg8; the carry flag is untouched.
    Dec8(Reg8),
    /// INC reg16; no flag is affected.
    Inc16(Reg16),
    /// DEC reg16; no flag is affected.
    Dec16(Reg16),
    /// HL <- HL + reg16.
    AddHl(Reg16),
    /// A <- A + operand.
    AddA(Src8),
    /// A <- A & operand.
    AndA(Src8),
    /// A <- A ^ operand.
    XorA(Src8),
    /// A <- A | operand.
    OrA(Src8),
    /// Compare operand against A.
    CpA(Src8),
    /// A <- !A.
    Cpl,
    /// A shifted left by one, bit 7 to carry.
    RotLeftA,
    /// A rotated right through the carry flag.
    RotRightA,
    /// Absolute jump.
    Jp(Cond),
    /// PC <- HL.
    JpHl,
    /// Relative jump by a signed offset byte.
    Jr(Cond),
    /// Push the return address and jump to a 16-bit target.
    Call(Cond),
    /// Pop the return address into PC.
    Ret(Cond),
    /// Push the return address and jump to a fixed low-memory vector.
    Rst(u8),
    /// Push a register pair.
    Push(Reg16),
    /// Pop into a register pair.
    Pop(Reg16),
    /// Set or clear the interrupt-enable byte at 0xFFFF.
    SetInterrupts(bool),
}

/// A decoded instruction from the 0xCB-prefixed table.
#[derive(Clone, Copy, PartialEq, Eq, Structural, Debug)]
pub enum CbInstr {
    /// Exchange the high and low nibbles of a register.
    Swap(Reg8),
    /// Exchange the high and low nibbles of the byte HL points at.
    SwapHl,
    /// Clear one bit (0..7) of a register.
    Res(u8, Reg8),
    /// Clear one bit (0..7) of the byte HL points at.
    ResHl(u8),
}

/// Every bit index a prefixed instruction carries is below 8.
pub open spec fn cb_wf(ci: CbInstr) -> bool {
    match ci {
        CbInstr::Swap(_) => true,
        CbInstr::SwapHl => true,
        CbInstr::Res(b, _) => b < 8,
        CbInstr::ResHl(b) => b < 8,
    }
}

/// The primary opcode table as a function of the opcode byte.
pub open spec fn spec_decode(opcode: u8) -> Option<Instr> {
    match opcode {
        0x00 => Some(Instr::Nop),
        0x01 => Some(Instr::LdD16(Reg16::BC)),
        0x02 => Some(Instr::StoreAPair(Reg16::BC)),
        0x03 => Some(Instr::Inc16(Reg16::BC)),
        0x04 => Some(Instr::Inc8(Reg8::B)),
        0x05 => Some(Instr::Dec8(Reg8::B)),
        0x06 => Some(Instr::LdD8(Reg8::B)),
        0x07 => Some(Instr::RotLeftA),
        0x08 => Some(Instr::StoreSp),
        0x09 => Some(Instr::AddHl(Reg16::BC)),
        0x0a => Some(Instr::LoadAPair(Reg16::BC)),
        0x0b => Some(Instr::Dec16(Reg16::BC)),
        0x0c => Some(Instr::Inc8(Reg8::C)),
        0x0d => Some(Instr::Dec8(Reg8::C)),
        0x0e => Some(Instr::LdD8(Reg8::C)),
        0x10 => Some(Instr::Stop),
        0x11 => Some(Instr::LdD16(Reg16::DE)),
        0x12 => Some(Instr::StoreAPair(Reg16::DE)),
        0x13 => Some(Instr::Inc16(Reg16::DE)),
        0x14 => Some(Instr::Inc8(Reg8::D)),
        0x15 => Some(Instr::Dec8(Reg8::D)),
        0x16 => Some(Instr::LdD8(Reg8::D)),
        0x18 => Some(Instr::Jr(Cond::Always)),
        0x19 => Some(Instr::AddHl(Reg16::DE)),
        0x1a => Some(Instr::LoadAPair(Reg16::DE)),
        0x1b => Some(Instr::Dec16(Reg16::DE)),
        0x1c => Some(Instr::Inc8(Reg8::E)),
        0x1d => Some(Instr::Dec8(Reg8::E)),
        0x1e => Some(Instr::LdD8(Reg8::E)),
        0x1f => Some(Instr::RotRightA),
        0x20 => Some(Instr::Jr(Cond::NotZero)),
        0x21 => Some(Instr::LdD16(Reg16::HL)),
        0x22 => Some(Instr::StoreAHlInc),
        0x23 => Some(Instr::Inc16(Reg16::HL)),
        0x24 => Some(Instr::Inc8(Reg8::H)),
        0x25 => Some(Instr::Dec8(Reg8::H)),
        0x26 => Some(Instr::LdD8(Reg8::H)),
        0x28 => Some(Instr::Jr(Cond::Zero)),
        0x29 => Some(Instr::AddHl(Reg16::HL)),
        0x2a => Some(Instr::LoadAHlInc),
        0x2b => Some(Instr::Dec16(Reg16::HL)),
        0x2c => Some(Instr::Inc8(Reg8::L)),
        0x2d => Some(Instr::Inc8(Reg8::L)),
        0x2e => Some(Instr::LdD8(Reg8::L)),
        0x2f => Some(Instr::Cpl),
        0x30 => Some(Instr::Jr(Cond::NotCarry)),
        0x31 => Some(Instr::LdD16(Reg16::SP)),
        0x32 => Some(Instr::StoreAHlDec),
        0x33 => Some(Instr::Inc16(Reg16::SP)),
        0x36 => Some(Instr::StoreHlD8),
        0x38 => Some(Instr::Jr(Cond::Carry)),
        0x39 => Some(Instr::AddHl(Reg16::SP)),
        0x3a => Some(Instr::LoadAHlDec),
        0x3b => Some(Instr::Dec16(Reg16::SP)),
        0x3c => Some(Instr::Inc8(Reg8::A)),
        0x3d => Some(Instr::Dec8(Reg8::A)),
        0x3e => Some(Instr::LdD8(Reg8::A)),
        0x40 => Some(Instr::LdReg8(Reg8::B, Reg8::B)),
        0x41 => Some(Instr::LdReg8(Reg8::B, Reg8::C)),
        0x42 => Some(Instr::LdReg8(Reg8::B, Reg8::D)),
        0x43 => Some(Instr::LdReg8(Reg8::B, Reg8::E)),
        0x44 => Some(Instr::LdReg8(Reg8::B, Reg8::H)),
        0x45 => Some(Instr::LdReg8(Reg8::B, Reg8::L)),
        0x46 => Some(Instr::LoadHl(Reg8::B)),
        0x47 => Some(Instr::LdReg8(Reg8::B, Reg8::A)),
        0x48 => Some(Instr::LdReg8(Reg8::C, Reg8::B)),
        0x49 => Some(Instr::LdReg8(Reg8::C, Reg8::C)),
        0x4a => Some(Instr::LdReg8(Reg8::C, Reg8::D)),
        0x4b => Some(Instr::LdReg8(Reg8::C, Reg8::E)),
        0x4c => Some(Instr::LdReg8(Reg8::C, Reg8::H)),
        0x4d => Some(Instr::LdReg8(Reg8::C, Reg8::L)),
        0x4e => Some(Instr::LoadHl(Reg8::C)),
        0x4f => Some(Instr::LdReg8(Reg8::C, Reg8::A)),
        0x50 => Some(Instr::LdReg8(Reg8::D, Reg8::B)),
        0x51 => Some(Instr::LdReg8(Reg8::D, Reg8::C)),
        0x52 => Some(Instr::LdReg8(Reg8::D, Reg8::D)),
        0x53 => Some(Instr::LdReg8(Reg8::D, Reg8::E)),
        0x54 => Some(Instr::LdReg8(Reg8::D, Reg8::H)),
        0x55 => Some(Instr::LdReg8(Reg8::D, Reg8::L)),
        0x56 => Some(Instr::LoadHl(Reg8::D)),
        0x57 => Some(Instr::LdReg8(Reg8::D, Reg8::A)),
        0x58 => Some(Instr::LdReg8(Reg8::E, Reg8::B)),
        0x59 => Some(Instr::LdReg8(Reg8::E, Reg8::C)),
        0x5a => Some(Instr::LdReg8(Reg8::E, Reg8::D)),
        0x5b => Some(Instr::LdReg8(Reg8::E, Reg8::E)),
        0x5c => Some(Instr::LdReg8(Reg8::E, Reg8::H)),
        0x5d => Some(Instr::LdReg8(Reg8::E, Reg8::L)),
        0x5e => Some(Instr::LoadHl(Reg8::E)),
        0x5f => Some(Instr::LdReg8(Reg8::E, Reg8::A)),
        0x60 => Some(Instr::LdReg8(Reg8::H, Reg8::B)),
        0x61 => Some(Instr::LdReg8(Reg8::H, Reg8::C)),
        0x62 => Some(Instr::LdReg8(Reg8::H, Reg8::D)),
        0x63 => Some(Instr::LdReg8(Reg8::H, Reg8::E)),
        0x64 => Some(Instr::LdReg8(Reg8::H, Reg8::H)),
        0x65 => Some(Instr::LdReg8(Reg8::H, Reg8::L)),
        0x66 => Some(Instr::LoadHl(Reg8::H)),
        0x67 => Some(Instr::LdReg8(Reg8::H, Reg8::A)),
        0x68 => Some(Instr::LdReg8(Reg8::L, Reg8::B)),
        0x69 => Some(Instr::LdReg8(Reg8::L, Reg8::C)),
        0x6a => Some(Instr::LdReg8(Reg8::L, Reg8::D)),
        0x6b => Some(Instr::LdReg8(Reg8::L, Reg8::E)),
        0x6c => Some(Instr::LdReg8(Reg8::L, Reg8::H)),
        0x6d => Some(Instr::LdReg8(Reg8::L, Reg8::L)),
        0x6e => Some(Instr::LoadHl(Reg8::L)),
        0x6f => Some(Instr::LdReg8(Reg8::L, Reg8::A)),
        0x70 => Some(Instr::StoreHl(Reg8::B)),
        0x71 => Some(Instr::StoreHl(Reg8::C)),
        0x72 => Some(Instr::StoreHl(Reg8::D)),
        0x73 => Some(Instr::StoreHl(Reg8::E)),
        0x74 => Some(Instr::StoreHl(Reg8::H)),
        0x75 => Some(Instr::StoreHl(Reg8::L)),
        0x76 => Some(Instr::Halt),
        0x77 => Some(Instr::StoreHl(Reg8::A)),
        0x78 => Some(Instr::LdReg8(Reg8::A, Reg8::B)),
        0x79 => Some(Instr::LdReg8(Reg8::A, Reg8::C)),
        0x7a => Some(Instr::LdReg8(Reg8::A, Reg8::D)),
        0x7b => Some(Instr::LdReg8(Reg8::A, Reg8::E)),
        0x7c => Some(Instr::LdReg8(Reg8::A, Reg8::H)),
        0x7d => Some(Instr::LdReg8(Reg8::A, Reg8::L)),
        0x7e => Some(Instr::LoadHl(Reg8::A)),
        0x7f => Some(Instr::LdReg8(Reg8::A, Reg8::A)),
        0x80 => Some(Instr::AddA(Src8::Reg(Reg8::B))),
        0x81 => Some(Instr::AddA(Src8::Reg(Reg8::C))),
        0x82 => Some(Instr::AddA(Src8::Reg(Reg8::D))),
        0x83 => Some(Instr::AddA(Src8::Reg(Reg8::E))),
        0x84 => Some(Instr::AddA(Src8::Reg(Reg8::H))),
        0x85 => Some(Instr::AddA(Src8::Reg(Reg8::L))),
        0x86 => Some(Instr::AddA(Src8::HlInd)),
        0x87 => Some(Instr::AddA(Src8::Reg(Reg8::A))),
        0xa0 => Some(Instr::AndA(Src8::Reg(Reg8::B))),
        0xa1 => Some(Instr::AndA(Src8::Reg(Reg8::C))),
        0xa2 => Some(Instr::AndA(Src8::Reg(Reg8::D))),
        0xa3 => Some(Instr::AndA(Src8::Reg(Reg8::E))),
        0xa4 => Some(Instr::AndA(Src8::Reg(Reg8::H))),
        0xa5 => Some(Instr::AndA(Src8::Reg(Reg8::L))),
        0xa6 => Some(Instr::AndA(Src8::HlInd)),
        0xa7 => Some(Instr::AndA(Src8::Reg(Reg8::A))),
        0xa8 => Some(Instr::XorA(Src8::Reg(Reg8::B))),
        0xa9 => Some(Instr::XorA(Src8::Reg(Reg8::C))),
        0xaa => Some(Instr::XorA(Src8::Reg(Reg8::D))),
        0xab => Some(Instr::XorA(Src8::Reg(Reg8::E))),
        0xac => Some(Instr::XorA(Src8::Reg(Reg8::H))),
        0xad => Some(Instr::XorA(Src8::Reg(Reg8::L))),
        0xae => Some(Instr::XorA(Src8::HlInd)),
        0xaf => Some(Instr::XorA(Src8::Reg(Reg8::A))),
        0xb0 => Some(Instr::OrA(Src8::Reg(Reg8::B))),
        0xb1 => Some(Instr::OrA(Src8::Reg(Reg8::C))),
        0xb2 => Some(Instr::OrA(Src8::Reg(Reg8::D))),
        0xb3 => Some(Instr::OrA(Src8::Reg(Reg8::E))),
        0xb4 => Some(Instr::OrA(Src8::Reg(Reg8::H))),
        0xb5 => Some(Instr::OrA(Src8::Reg(Reg8::L))),
        0xb6 => Some(Instr::OrA(Src8::HlInd)),
        0xb7 => Some(Instr::OrA(Src8::Reg(Reg8::A))),
        0xb8 => Some(Instr::CpA(Src8::Reg(Reg8::B))),
        0xb9 => Some(Instr::CpA(Src8::Reg(Reg8::C))),
        0xba => Some(Instr::CpA(Src8::Reg(Reg8::D))),
        0xbb => Some(Instr::CpA(Src8::Reg(Reg8::E))),
        0xbc => Some(Instr::CpA(Src8::Reg(Reg8::H))),
        0xbd => Some(Instr::CpA(Src8::Reg(Reg8::L))),
        0xbe => Some(Instr::CpA(Src8::HlInd)),
        0xbf => Some(Instr::CpA(Src8::Reg(Reg8::A))),
        0xc0 => Some(Instr::Ret(Cond::NotZero)),
        0xc1 => Some(Instr::Pop(Reg16::BC)),
        0xc2 => Some(Instr::Jp(Cond::NotZero)),
        0xc3 => Some(Instr::Jp(Cond::Always)),
        0xc5 => Some(Instr::Push(Reg16::BC)),
        0xc7 => Some(Instr::Rst(0x00)),
        0xc8 => Some(Instr::Ret(Cond::Zero)),
        0xc9 => Some(Instr::Ret(Cond::Always)),
        0xca => Some(Instr::Jp(Cond::Zero)),
        0xcb => Some(Instr::Prefix),
        0xcd => Some(Instr::Call(Cond::Always)),
        0xcf => Some(Instr::Rst(0x08)),
        0xd0 => Some(Instr::Ret(Cond::NotCarry)),
        0xd1 => Some(Instr::Pop(Reg16::DE)),
        0xd2 => Some(Instr::Jp(Cond::NotCarry)),
        0xd5 => Some(Instr::Push(Reg16::DE)),
        0xd7 => Some(Instr::Rst(0x10)),
        0xd8 => Some(Instr::Ret(Cond::Carry)),
        0xda => Some(Instr::Jp(Cond::Carry)),
        0xdf => Some(Instr::Rst(0x18)),
        0xe0 => Some(Instr::StoreHighImm),
        0xe1 => Some(Instr::Pop(Reg16::HL)),
        0xe2 => Some(Instr::StoreHighC),
        0xe5 => Some(Instr::Push(Reg16::HL)),
        0xe6 => Some(Instr::AndA(Src8::Imm)),
        0xe7 => Some(Instr::Rst(0x20)),
        0xe9 => Some(Instr::JpHl),
        0xea => Some(Instr::StoreAImm16),
        0xef => Some(Instr::Rst(0x28)),
        0xf0 => Some(Instr::LoadHighImm),
        0xf1 => Some(Instr::Pop(Reg16::AF)),
        0xf3 => Some(Instr::SetInterrupts(false)),
        0xf5 => Some(Instr::Push(Reg16::AF)),
        0xf7 => Some(Instr::Rst(0x30)),
        0xfa => Some(Instr::LoadAImm16),
        0xfb => Some(Instr::SetInterrupts(true)),
        0xfe => Some(Instr::CpA(Src8::Imm)),
        0xff => Some(Instr::Rst(0x38)),
        _ => None,
    }
}

/// The 0xCB-prefixed opcode table as a function of the second opcode byte.
pub open spec fn spec_decode_cb(opcode: u8) -> Option<CbInstr> {
    match opcode {
        0x30 => Some(CbInstr::Swap(Reg8::B)),
        0x31 => Some(CbInstr::Swap(Reg8::C)),
        0x32 => Some(CbInstr::Swap(Reg8::D)),
        0x33 => Some(CbInstr::Swap(Reg8::E)),
        0x34 => Some(CbInstr::Swap(Reg8::H)),
        0x35 => Some(CbInstr::Swap(Reg8::L)),
        0x36 => Some(CbInstr::SwapHl),
        0x37 => Some(CbInstr::Swap(Reg8::A)),
        0x80 => Some(CbInstr::Res(0, Reg8::B)),
        0x81 => Some(CbInstr::Res(0, Reg8::C)),
        0x82 => Some(CbInstr::Res(0, Reg8::D)),
        0x83 => Some(CbInstr::Res(0, Reg8::E)),
        0x84 => Some(CbInstr::Res(0, Reg8::H)),
        0x85 => Some(CbInstr::Res(0, Reg8::L)),
        0x86 => Some(CbInstr::ResHl(0)),
        0x87 => Some(CbInstr::Res(1, Reg8::A)),
        0x88 => Some(CbInstr::Res(1, Reg8::B)),
        0x89 => Some(CbInstr::Res(1, Reg8::C)),
        0x8a => Some(CbInstr::Res(1, Reg8::D)),
        0x8b => Some(CbInstr::Res(1, Reg8::E)),
        0x8c => Some(CbInstr::Res(1, Reg8::H)),
        0x8d => Some(CbInstr::Res(1, Reg8::L)),
        0x8e => Some(CbInstr::ResHl(1)),
        0x8f => Some(CbInstr::Res(1, Reg8::A)),
        0x90 => Some(CbInstr::Res(2, Reg8::B)),
        0x91 => Some(CbInstr::Res(2, Reg8::C)),
        0x92 => Some(CbInstr::Res(2, Reg8::D)),
        0x93 => Some(CbInstr::Res(2, Reg8::E)),
        0x94 => Some(CbInstr::Res(2, Reg8::H)),
        0x95 => Some(CbInstr::Res(2, Reg8::L)),
        0x96 => Some(CbInstr::ResHl(2)),
        0x97 => Some(CbInstr::Res(2, Reg8::A)),
        0x98 => Some(CbInstr::Res(3, Reg8::B)),
        0x99 => Some(CbInstr::Res(3, Reg8::C)),
        0x9a => Some(CbInstr::Res(3, Reg8::D)),
        0x9b => Some(CbInstr::Res(3, Reg8::E)),
        0x9c => Some(CbInstr::Res(3, Reg8::H)),
        0x9d => Some(CbInstr::Res(3, Reg8::L)),
        0x9e => Some(CbInstr::ResHl(3)),
        0x9f => Some(CbInstr::Res(3, Reg8::A)),
        0xa0 => Some(CbInstr::Res(4, Reg8::B)),
        0xa1 => Some(CbInstr::Res(4, Reg8::C)),
        0xa2 => Some(CbInstr::Res(4, Reg8::D)),
        0xa3 => Some(CbInstr::Res(4, Reg8::E)),
        0xa4 => Some(CbInstr::Res(4, Reg8::H)),
        0xa5 => Some(CbInstr::Res(4, Reg8::L)),
        0xa6 => Some(CbInstr::ResHl(4)),
        0xa7 => Some(CbInstr::Res(4, Reg8::A)),
        0xa8 => Some(CbInstr::Res(5, Reg8::B)),
        0xa9 => Some(CbInstr::Res(5, Reg8::C)),
        0xaa => Some(CbInstr::Res(5, Reg8::D)),
        0xab => Some(CbInstr::Res(5, Reg8::E)),
        0xac => Some(CbInstr::Res(5, Reg8::H)),
        0xad => Some(CbInstr::Res(5, Reg8::L)),
        0xae => Some(CbInstr::ResHl(5)),
        0xaf => Some(CbInstr::Res(5, Reg8::A)),
        0xb0 => Some(CbInstr::Res(6, Reg8::B)),
        0xb1 => Some(CbInstr::Res(6, Reg8::C)),
        0xb2 => Some(CbInstr::Res(6, Reg8::D)),
        0xb3 => Some(CbInstr::Res(6, Reg8::E)),
        0xb4 => Some(CbInstr::Res(6, Reg8::H)),
        0xb5 => Some(CbInstr::Res(6, Reg8::L)),
        0xb6 => Some(CbInstr::ResHl(6)),
        0xb7 => Some(CbInstr::Res(6, Reg8::A)),
        0xb8 => Some(CbInstr::Res(7, Reg8::B)),
        0xb9 => Some(CbInstr::Res(7, Reg8::C)),
        0xba => Some(CbInstr::Res(7, Reg8::D)),
        0xbb => Some(CbInstr::Res(7, Reg8::E)),
        0xbc => Some(CbInstr::Res(7, Reg8::H)),
        0xbd => Some(CbInstr::Res(7, Reg8::L)),
        0xbe => Some(CbInstr::ResHl(7)),
        0xbf => Some(CbInstr::Res(7, Reg8::A)),
        _ => None,
    }
}

/// Looks an opcode byte up in the primary table.
pub fn decode(opcode: u8) -> (r: Option<Instr>)
    ensures
        r == spec_decode(opcode),
{
    match opcode {
        0x00 => Some(Instr::Nop),
        0x01 => Some(Instr::LdD16(Reg16::BC)),
        0x02 => Some(Instr::StoreAPair(Reg16::BC)),
        0x03 => Some(Instr::Inc16(Reg16::BC)),
        0x04 => Some(Instr::Inc8(Reg8::B)),
        0x05 => Some(Instr::Dec8(Reg8::B)),
        0x06 => Some(Instr::LdD8(Reg8::B)),
        0x07 => Some(Instr::RotLeftA),
        0x08 => Some(Instr::StoreSp),
        0x09 => Some(Instr::AddHl(Reg16::BC)),
        0x0a => Some(Instr::LoadAPair(Reg16::BC)),
        0x0b => Some(Instr::Dec16(Reg16::BC)),
        0x0c => Some(Instr::Inc8(Reg8::C)),
        0x0d => Some(Instr::Dec8(Reg8::C)),
        0x0e => Some(Instr::LdD8(Reg8::C)),
        0x10 => Some(Instr::Stop),
        0x11 => Some(Instr::LdD16(Reg16::DE)),
        0x12 => Some(Instr::StoreAPair(Reg16::DE)),
        0x13 => Some(Instr::Inc16(Reg16::DE)),
        0x14 => Some(Instr::Inc8(Reg8::D)),
        0x15 => Some(Instr::Dec8(Reg8::D)),
        0x16 => Some(Instr::LdD8(Reg8::D)),
        0x18 => Some(Instr::Jr(Cond::Always)),
        0x19 => Some(Instr::AddHl(Reg16::DE)),
        0x1a => Some(Instr::LoadAPair(Reg16::DE)),
        0x1b => Some(Instr::Dec16(Reg16::DE)),
        0x1c => Some(Instr::Inc8(Reg8::E)),
        0x1d => Some(Instr::Dec8(Reg8::E)),
        0x1e => Some(Instr::LdD8(Reg8::E)),
        0x1f => Some(Instr::RotRightA),
        0x20 => Some(Instr::Jr(Cond::NotZero)),
        0x21 => Some(Instr::LdD16(Reg16::HL)),
        0x22 => Some(Instr::StoreAHlInc),
        0x23 => Some(Instr::Inc16(Reg16::HL)),
        0x24 => Some(Instr::Inc8(Reg8::H)),
        0x25 => Some(Instr::Dec8(Reg8::H)),
        0x26 => Some(Instr::LdD8(Reg8::H)),
        0x28 => Some(Instr::Jr(Cond::Zero)),
        0x29 => Some(Instr::AddHl(Reg16::HL)),
        0x2a => Some(Instr::LoadAHlInc),
        0x2b => Some(Instr::Dec16(Reg16::HL)),
        0x2c => Some(Instr::Inc8(Reg8::L)),
        0x2d => Some(Instr::Inc8(Reg8::L)),
        0x2e => Some(Instr::LdD8(Reg8::L)),
        0x2f => Some(Instr::Cpl),
        0x30 => Some(Instr::Jr(Cond::NotCarry)),
        0x31 => Some(Instr::LdD16(Reg16::SP)),
        0x32 => Some(Instr::StoreAHlDec),
        0x33 => Some(Instr::Inc16(Reg16::SP)),
        0x36 => Some(Instr::StoreHlD8),
        0x38 => Some(Instr::Jr(Cond::Carry)),
        0x39 => Some(Instr::AddHl(Reg16::SP)),
        0x3a => Some(Instr::LoadAHlDec),
        0x3b => Some(Instr::Dec16(Reg16::SP)),
        0x3c => Some(Instr::Inc8(Reg8::A)),
        0x3d => Some(Instr::Dec8(Reg8::A)),
        0x3e => Some(Instr::LdD8(Reg8::A)),
        0x40 => Some(Instr::LdReg8(Reg8::B, Reg8::B)),
        0x41 => Some(Instr::LdReg8(Reg8::B, Reg8::C)),
        0x42 => Some(Instr::LdReg8(Reg8::B, Reg8::D)),
        0x43 => Some(Instr::LdReg8(Reg8::B, Reg8::E)),
        0x44 => Some(Instr::LdReg8(Reg8::B, Reg8::H)),
        0x45 => Some(Instr::LdReg8(Reg8::B, Reg8::L)),
        0x46 => Some(Instr::LoadHl(Reg8::B)),
        0x47 => Some(Instr::LdReg8(Reg8::B, Reg8::A)),
        0x48 => Some(Instr::LdReg8(Reg8::C, Reg8::B)),
        0x49 => Some(Instr::LdReg8(Reg8::C, Reg8::C)),
        0x4a => Some(Instr::LdReg8(Reg8::C, Reg8::D)),
        0x4b => Some(Instr::LdReg8(Reg8::C, Reg8::E)),
        0x4c => Some(Instr::LdReg8(Reg8::C, Reg8::H)),
        0x4d => Some(Instr::LdReg8(Reg8::C, Reg8::L)),
        0x4e => Some(Instr::LoadHl(Reg8::C)),
        0x4f => Some(Instr::LdReg8(Reg8::C, Reg8::A)),
        0x50 => Some(Instr::LdReg8(Reg8::D, Reg8::B)),
        0x51 => Some(Instr::LdReg8(Reg8::D, Reg8::C)),
        0x52 => Some(Instr::LdReg8(Reg8::D, Reg8::D)),
        0x53 => Some(Instr::LdReg8(Reg8::D, Reg8::E)),
        0x54 => Some(Instr::LdReg8(Reg8::D, Reg8::H)),
        0x55 => Some(Instr::LdReg8(Reg8::D, Reg8::L)),
        0x56 => Some(Instr::LoadHl(Reg8::D)),
        0x57 => Some(Instr::LdReg8(Reg8::D, Reg8::A)),
        0x58 => Some(Instr::LdReg8(Reg8::E, Reg8::B)),
        0x59 => Some(Instr::LdReg8(Reg8::E, Reg8::C)),
        0x5a => Some(Instr::LdReg8(Reg8::E, Reg8::D)),
        0x5b => Some(Instr::LdReg8(Reg8::E, Reg8::E)),
        0x5c => Some(Instr::LdReg8(Reg8::E, Reg8::H)),
        0x5d => Some(Instr::LdReg8(Reg8::E, Reg8::L)),
        0x5e => Some(Instr::LoadHl(Reg8::E)),
        0x5f => Some(Instr::LdReg8(Reg8::E, Reg8::A)),
        0x60 => Some(Instr::LdReg8(Reg8::H, Reg8::B)),
        0x61 => Some(Instr::LdReg8(Reg8::H, Reg8::C)),
        0x62 => Some(Instr::LdReg8(Reg8::H, Reg8::D)),
        0x63 => Some(Instr::LdReg8(Reg8::H, Reg8::E)),
        0x64 => Some(Instr::LdReg8(Reg8::H, Reg8::H)),
        0x65 => Some(Instr::LdReg8(Reg8::H, Reg8::L)),
        0x66 => Some(Instr::LoadHl(Reg8::H)),
        0x67 => Some(Instr::LdReg8(Reg8::H, Reg8::A)),
        0x68 => Some(Instr::LdReg8(Reg8::L, Reg8::B)),
        0x69 => Some(Instr::LdReg8(Reg8::L, Reg8::C)),
        0x6a => Some(Instr::LdReg8(Reg8::L, Reg8::D)),
        0x6b => Some(Instr::LdReg8(Reg8::L, Reg8::E)),
        0x6c => Some(Instr::LdReg8(Reg8::L, Reg8::H)),
        0x6d => Some(Instr::LdReg8(Reg8::L, Reg8::L)),
        0x6e => Some(Instr::LoadHl(Reg8::L)),
        0x6f => Some(Instr::LdReg8(Reg8::L, Reg8::A)),
        0x70 => Some(Instr::StoreHl(Reg8::B)),
        0x71 => Some(Instr::StoreHl(Reg8::C)),
        0x72 => Some(Instr::StoreHl(Reg8::D)),
        0x73 => Some(Instr::StoreHl(Reg8::E)),
        0x74 => Some(Instr::StoreHl(Reg8::H)),
        0x75 => Some(Instr::StoreHl(Reg8::L)),
        0x76 => Some(Instr::Halt),
        0x77 => Some(Instr::StoreHl(Reg8::A)),
        0x78 => Some(Instr::LdReg8(Reg8::A, Reg8::B)),
        0x79 => Some(Instr::LdReg8(Reg8::A, Reg8::C)),
        0x7a => Some(Instr::LdReg8(Reg8::A, Reg8::D)),
        0x7b => Some(Instr::LdReg8(Reg8::A, Reg8::E)),
        0x7c => Some(Instr::LdReg8(Reg8::A, Reg8::H)),
        0x7d => Some(Instr::LdReg8(Reg8::A, Reg8::L)),
        0x7e => Some(Instr::LoadHl(Reg8::A)),
        0x7f => Some(Instr::LdReg8(Reg8::A, Reg8::A)),
        0x80 => Some(Instr::AddA(Src8::Reg(Reg8::B))),
        0x81 => Some(Instr::AddA(Src8::Reg(Reg8::C))),
        0x82 => Some(Instr::AddA(Src8::Reg(Reg8::D))),
        0x83 => Some(Instr::AddA(Src8::Reg(Reg8::E))),
        0x84 => Some(Instr::AddA(Src8::Reg(Reg8::H))),
        0x85 => Some(Instr::AddA(Src8::Reg(Reg8::L))),
        0x86 => Some(Instr::AddA(Src8::HlInd)),
        0x87 => Some(Instr::AddA(Src8::Reg(Reg8::A))),
        0xa0 => Some(Instr::AndA(Src8::Reg(Reg8::B))),
        0xa1 => Some(Instr::AndA(Src8::Reg(Reg8::C))),
        0xa2 => Some(Instr::AndA(Src8::Reg(Reg8::D))),
        0xa3 => Some(Instr::AndA(Src8::Reg(Reg8::E))),
        0xa4 => Some(Instr::AndA(Src8::Reg(Reg8::H))),
        0xa5 => Some(Instr::AndA(Src8::Reg(Reg8::L))),
        0xa6 => Some(Instr::AndA(Src8::HlInd)),
        0xa7 => Some(Instr::AndA(Src8::Reg(Reg8::A))),
        0xa8 => Some(Instr::XorA(Src8::Reg(Reg8::B))),
        0xa9 => Some(Instr::XorA(Src8::Reg(Reg8::C))),
        0xaa => Some(Instr::XorA(Src8::Reg(Reg8::D))),
        0xab => Some(Instr::XorA(Src8::Reg(Reg8::E))),
        0xac => Some(Instr::XorA(Src8::Reg(Reg8::H))),
        0xad => Some(Instr::XorA(Src8::Reg(Reg8::L))),
        0xae => Some(Instr::XorA(Src8::HlInd)),
        0xaf => Some(Instr::XorA(Src8::Reg(Reg8::A))),
        0xb0 => Some(Instr::OrA(Src8::Reg(Reg8::B))),
        0xb1 => Some(Instr::OrA(Src8::Reg(Reg8::C))),
        0xb2 => Some(Instr::OrA(Src8::Reg(Reg8::D))),
        0xb3 => Some(Instr::OrA(Src8::Reg(Reg8::E))),
        0xb4 => Some(Instr::OrA(Src8::Reg(Reg8::H))),
        0xb5 => Some(Instr::OrA(Src8::Reg(Reg8::L))),
        0xb6 => Some(Instr::OrA(Src8::HlInd)),
        0xb7 => Some(Instr::OrA(Src8::Reg(Reg8::A))),
        0xb8 => Some(Instr::CpA(Src8::Reg(Reg8::B))),
        0xb9 => Some(Instr::CpA(Src8::Reg(Reg8::C))),
        0xba => Some(Instr::CpA(Src8::Reg(Reg8::D))),
        0xbb => Some(Instr::CpA(Src8::Reg(Reg8::E))),
        0xbc => Some(Instr::CpA(Src8::Reg(Reg8::H))),
        0xbd => Some(Instr::CpA(Src8::Reg(Reg8::L))),
        0xbe => Some(Instr::CpA(Src8::HlInd)),
        0xbf => Some(Instr::CpA(Src8::Reg(Reg8::A))),
        0xc0 => Some(Instr::Ret(Cond::NotZero)),
        0xc1 => Some(Instr::Pop(Reg16::BC)),
        0xc2 => Some(Instr::Jp(Cond::NotZero)),
        0xc3 => Some(Instr::Jp(Cond::Always)),
        0xc5 => Some(Instr::Push(Reg16::BC)),
        0xc7 => Some(Instr::Rst(0x00)),
        0xc8 => Some(Instr::Ret(Cond::Zero)),
        0xc9 => Some(Instr::Ret(Cond::Always)),
        0xca => Some(Instr::Jp(Cond::Zero)),
        0xcb => Some(Instr::Prefix),
        0xcd => Some(Instr::Call(Cond::Always)),
        0xcf => Some(Instr::Rst(0x08)),
        0xd0 => Some(Instr::Ret(Cond::NotCarry)),
        0xd1 => Some(Instr::Pop(Reg16::DE)),
        0xd2 => Some(Instr::Jp(Cond::NotCarry)),
        0xd5 => Some(Instr::Push(Reg16::DE)),
        0xd7 => Some(Instr::Rst(0x10)),
        0xd8 => Some(Instr::Ret(Cond::Carry)),
        0xda => Some(Instr::Jp(Cond::Carry)),
        0xdf => Some(Instr::Rst(0x18)),
        0xe0 => Some(Instr::StoreHighImm),
        0xe1 => Some(Instr::Pop(Reg16::HL)),
        0xe2 => Some(Instr::StoreHighC),
        0xe5 => Some(Instr::Push(Reg16::HL)),
        0xe6 => Some(Instr::AndA(Src8::Imm)),
        0xe7 => Some(Instr::Rst(0x20)),
        0xe9 => Some(Instr::JpHl),
        0xea => Some(Instr::StoreAImm16),
        0xef => Some(Instr::Rst(0x28)),
        0xf0 => Some(Instr::LoadHighImm),
        0xf1 => Some(Instr::Pop(Reg16::AF)),
        0xf3 => Some(Instr::SetInterrupts(false)),
        0xf5 => Some(Instr::Push(Reg16::AF)),
        0xf7 => Some(Instr::Rst(0x30)),
        0xfa => Some(Instr::LoadAImm16),
        0xfb => Some(Instr::SetInterrupts(true)),
        0xfe => Some(Instr::CpA(Src8::Imm)),
        0xff => Some(Instr::Rst(0x38)),
        _ => None,
    }
}

/// Looks a sub-opcode byte up in the 0xCB-prefixed table.
pub fn decode_cb(opcode: u8) -> (r: Option<CbInstr>)
    ensures
        r == spec_decode_cb(opcode),
        r matches Some(ci) ==> cb_wf(ci),
{
    match opcode {
        0x30 => Some(CbInstr::Swap(Reg8::B)),
        0x31 => Some(CbInstr::Swap(Reg8::C)),
        0x32 => Some(CbInstr::Swap(Reg8::D)),
        0x33 => Some(CbInstr::Swap(Reg8::E)),
        0x34 => Some(CbInstr::Swap(Reg8::H)),
        0x35 => Some(CbInstr::Swap(Reg8::L)),
        0x36 => Some(CbInstr::SwapHl),
        0x37 => Some(CbInstr::Swap(Reg8::A)),
        0x80 => Some(CbInstr::Res(0, Reg8::B)),
        0x81 => Some(CbInstr::Res(0, Reg8::C)),
        0x82 => Some(CbInstr::Res(0, Reg8::D)),
        0x83 => Some(CbInstr::Res(0, Reg8::E)),
        0x84 => Some(CbInstr::Res(0, Reg8::H)),
        0x85 => Some(CbInstr::Res(0, Reg8::L)),
        0x86 => Some(CbInstr::ResHl(0)),
        0x87 => Some(CbInstr::Res(1, Reg8::A)),
        0x88 => Some(CbInstr::Res(1, Reg8::B)),
        0x89 => Some(CbInstr::Res(1, Reg8::C)),
        0x8a => Some(CbInstr::Res(1, Reg8::D)),
        0x8b => Some(CbInstr::Res(1, Reg8::E)),
        0x8c => Some(CbInstr::Res(1, Reg8::H)),
        0x8d => Some(CbInstr::Res(1, Reg8::L)),
        0x8e => Some(CbInstr::ResHl(1)),
        0x8f => Some(CbInstr::Res(1, Reg8::A)),
        0x90 => Some(CbInstr::Res(2, Reg8::B)),
        0x91 => Some(CbInstr::Res(2, Reg8::C)),
        0x92 => Some(CbInstr::Res(2, Reg8::D)),
        0x93 => Some(CbInstr::Res(2, Reg8::E)),
        0x94 => Some(CbInstr::Res(2, Reg8::H)),
        0x95 => Some(CbInstr::Res(2, Reg8::L)),
        0x96 => Some(CbInstr::ResHl(2)),
        0x97 => Some(CbInstr::Res(2, Reg8::A)),
        0x98 => Some(CbInstr::Res(3, Reg8::B)),
        0x99 => Some(CbInstr::Res(3, Reg8::C)),
        0x9a => Some(CbInstr::Res(3, Reg8::D)),
        0x9b => Some(CbInstr::Res(3, Reg8::E)),
        0x9c => Some(CbInstr::Res(3, Reg8::H)),
        0x9d => Some(CbInstr::Res(3, Reg8::L)),
        0x9e => Some(CbInstr::ResHl(3)),
        0x9f => Some(CbInstr::Res(3, Reg8::A)),
        0xa0 => Some(CbInstr::Res(4, Reg8::B)),
        0xa1 => Some(CbInstr::Res(4, Reg8::C)),
        0xa2 => Some(CbInstr::Res(4, Reg8::D)),
        0xa3 => Some(CbInstr::Res(4, Reg8::E)),
        0xa4 => Some(CbInstr::Res(4, Reg8::H)),
        0xa5 => Some(CbInstr::Res(4, Reg8::L)),
        0xa6 => Some(CbInstr::ResHl(4)),
        0xa7 => Some(CbInstr::Res(4, Reg8::A)),
        0xa8 => Some(CbInstr::Res(5, Reg8::B)),
        0xa9 => Some(CbInstr::Res(5, Reg8::C)),
        0xaa => Some(CbInstr::Res(5, Reg8::D)),
        0xab => Some(CbInstr::Res(5, Reg8::E)),
        0xac => Some(CbInstr::Res(5, Reg8::H)),
        0xad => Some(CbInstr::Res(5, Reg8::L)),
        0xae => Some(CbInstr::ResHl(5)),
        0xaf => Some(CbInstr::Res(5, Reg8::A)),
        0xb0 => Some(CbInstr::Res(6, Reg8::B)),
        0xb1 => Some(CbInstr::Res(6, Reg8::C)),
        0xb2 => Some(CbInstr::Res(6, Reg8::D)),
        0xb3 => Some(CbInstr::Res(6, Reg8::E)),
        0xb4 => Some(CbInstr::Res(6, Reg8::H)),
        0xb5 => Some(CbInstr::Res(6, Reg8::L)),
        0xb6 => Some(CbInstr::ResHl(6)),
        0xb7 => Some(CbInstr::Res(6, Reg8::A)),
        0xb8 => Some(CbInstr::Res(7, Reg8::B)),
        0xb9 => Some(CbInstr::Res(7, Reg8::C)),
        0xba => Some(CbInstr::Res(7, Reg8::D)),
        0xbb => Some(CbInstr::Res(7, Reg8::E)),
        0xbc => Some(CbInstr::Res(7, Reg8::H)),
        0xbd => Some(CbInstr::Res(7, Reg8::L)),
        0xbe => Some(CbInstr::ResHl(7)),
        0xbf => Some(CbInstr::Res(7, Reg8::A)),
        _ => None,
    }
}

} // verus!
