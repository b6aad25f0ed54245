//! Laws the library keeps: the register-pair overlap invariant, the push/pop
//! round-trip, and the ALU flag rules, each proved once and for all inputs.

use vstd::prelude::*;

use crate::cpu::{spec_add_a, spec_cp, spec_pop, spec_push, wrap_dec16, wrap_inc16, GbView};
use crate::registers::{combine16, high_byte, low_byte, lemma_flags_byte, Flag};

verus! {

/// Overlap invariant: combining a high and a low byte and splitting the
/// result gives the bytes back, and splitting any 16-bit value and combining
/// the halves gives the value back.  The register-pair getters and setters
/// are specified with exactly these functions, so the two views of a pair
/// can never diverge.
pub proof fn lemma_pair_overlap(hi: u8, lo: u8, v: u16)
    ensures
        high_byte(combine16(hi, lo)) == hi,
        low_byte(combine16(hi, lo)) == lo,
        combine16(high_byte(v), low_byte(v)) == v,
{
    assert(((((hi as u16) << 8) | (lo as u16)) >> 8) as u8 == hi) by (bit_vector);
    assert(((((hi as u16) << 8) | (lo as u16)) & 0xFF) as u8 == lo) by (bit_vector);
    assert(((((v >> 8) as u8) as u16) << 8) | (((v & 0xFF) as u8) as u16) == v) by (bit_vector);
}

/// Push/pop round-trip: for every 16-bit value and every starting state,
/// popping right after pushing returns the pushed value and restores SP to
/// its pre-push value.
pub proof fn lemma_push_pop_roundtrip(v: GbView, x: u16)
    requires
        v.mem.len() == 0x10000,
    ensures
        spec_pop(spec_push(v, x)).0 == x,
        spec_pop(spec_push(v, x)).1.regs.sp == v.regs.sp,
{
    let sp = v.regs.sp;
    let a_hi = wrap_dec16(sp);
    let a_lo = wrap_dec16(a_hi);
    let v1 = spec_push(v, x);
    assert(v1.regs.sp == a_lo);
    assert(wrap_inc16(a_lo) == a_hi);
    assert(wrap_inc16(wrap_inc16(a_lo)) == sp);
    assert(a_lo != a_hi);
    assert(v1.mem[a_lo as int] == low_byte(x));
    assert(v1.mem[a_hi as int] == high_byte(x));
    lemma_pair_overlap(high_byte(x), low_byte(x), x);
}

/// ADD flag law: for all accumulator and operand bytes, ADD sets H iff the
/// low nibbles carry into bit 4 and sets C iff the full sum exceeds 0xFF;
/// Z is set iff the wrapped result is zero and N is cleared.
pub proof fn lemma_add_flags(v: GbView, n: u8)
    ensures
        spec_add_a(v, n).regs.spec_get_flag(Flag::H) == ((((v.regs.a & 0x0F) + (n & 0x0F)) as u16)
            & 0x10 == 0x10),
        spec_add_a(v, n).regs.spec_get_flag(Flag::C) == (v.regs.a + n > 0xFF),
        spec_add_a(v, n).regs.spec_get_flag(Flag::Z) == (spec_add_a(v, n).regs.a == 0),
        spec_add_a(v, n).regs.spec_get_flag(Flag::N) == false,
{
    let a = v.regs.a;
    let sum = ((a + n) % 0x100) as u8;
    lemma_flags_byte(
        sum == 0,
        false,
        (((a & 0x0F) + (n & 0x0F)) as u16) & 0x10 == 0x10,
        a + n > 0xFF,
    );
}

/// CP/SUB flag law: for all accumulator and operand bytes, compare sets H iff
/// the low nibble of A borrows (is smaller than the operand's) and sets C iff
/// A is smaller than the operand; Z is set iff they are equal and N is set.
pub proof fn lemma_cp_flags(v: GbView, n: u8)
    ensures
        spec_cp(v, n).regs.spec_get_flag(Flag::H) == ((v.regs.a & 0x0F) < (n & 0x0F)),
        spec_cp(v, n).regs.spec_get_flag(Flag::C) == (v.regs.a < n),
        spec_cp(v, n).regs.spec_get_flag(Flag::Z) == (v.regs.a == n),
        spec_cp(v, n).regs.spec_get_flag(Flag::N) == true,
{
    let a = v.regs.a;
    lemma_flags_byte(a == n, true, (a & 0x0F) < (n & 0x0F), a < n);
}

} // verus!
