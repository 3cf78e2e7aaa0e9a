use vstd::prelude::*;

use crate::bus::{lemma_plain_read, BusError, BusView, PPU_REGISTERS, PPU_REGISTERS_MIRRORS_END};
use crate::cpu::{
    continued, lemma_flags_round_trip, wrap16, wrap8, AddressingMode, CpuError, CpuFlags, CpuView, Flow,
    STACK,
};

verus! {

/// The address is not a picture-unit register, so reading it has no side
/// effect.
pub open spec fn plain(addr: u16) -> bool {
    !(PPU_REGISTERS <= addr <= PPU_REGISTERS_MIRRORS_END)
}

/// The condition under which branch opcode `code` is taken.
pub open spec fn branch_taken(code: u8, s: CpuView) -> bool {
    match code {
        0x10 => !s.p.negative,
        0x30 => s.p.negative,
        0x50 => !s.p.overflow,
        0x70 => s.p.overflow,
        0x90 => !s.p.carry,
        0xB0 => s.p.carry,
        0xD0 => !s.p.zero,
        _ => s.p.zero,
    }
}

pub open spec fn is_branch(code: u8) -> bool {
    code == 0x10 || code == 0x30 || code == 0x50 || code == 0x70 || code == 0x90 || code == 0xB0
        || code == 0xD0 || code == 0xF0
}

/// The accumulator, X and Y loads, the logic and arithmetic instructions
/// leave Zero set exactly when their result is 0 and Negative set exactly
/// when bit 7 of the result is set.
pub proof fn lemma_zero_negative_rule(s: CpuView, m: AddressingMode)
    ensures
        s.lda(m).1 is Ok ==> s.lda(m).0.p.zero == (s.lda(m).0.a == 0) && s.lda(m).0.p.negative == (
        s.lda(m).0.a & 0x80 != 0),
        s.ldx(m).1 is Ok ==> s.ldx(m).0.p.zero == (s.ldx(m).0.x == 0) && s.ldx(m).0.p.negative == (
        s.ldx(m).0.x & 0x80 != 0),
        s.ldy(m).1 is Ok ==> s.ldy(m).0.p.zero == (s.ldy(m).0.y == 0) && s.ldy(m).0.p.negative == (
        s.ldy(m).0.y & 0x80 != 0),
        s.and(m).1 is Ok ==> s.and(m).0.p.zero == (s.and(m).0.a == 0) && s.and(m).0.p.negative == (
        s.and(m).0.a & 0x80 != 0),
        s.eor(m).1 is Ok ==> s.eor(m).0.p.zero == (s.eor(m).0.a == 0) && s.eor(m).0.p.negative == (
        s.eor(m).0.a & 0x80 != 0),
        s.ora(m).1 is Ok ==> s.ora(m).0.p.zero == (s.ora(m).0.a == 0) && s.ora(m).0.p.negative == (
        s.ora(m).0.a & 0x80 != 0),
        s.adc(m).1 is Ok ==> s.adc(m).0.p.zero == (s.adc(m).0.a == 0) && s.adc(m).0.p.negative == (
        s.adc(m).0.a & 0x80 != 0),
        s.sbc(m).1 is Ok ==> s.sbc(m).0.p.zero == (s.sbc(m).0.a == 0) && s.sbc(m).0.p.negative == (
        s.sbc(m).0.a & 0x80 != 0),
        s.lax(m).1 is Ok ==> s.lax(m).0.p.zero == (s.lax(m).0.a == 0) && s.lax(m).0.p.negative == (
        s.lax(m).0.a & 0x80 != 0),
        s.pla().p.zero == (s.pla().a == 0) && s.pla().p.negative == (s.pla().a & 0x80 != 0),
{
    reveal(CpuView::lda);
    reveal(CpuView::ldx);
    reveal(CpuView::ldy);
    reveal(CpuView::and);
    reveal(CpuView::eor);
    reveal(CpuView::ora);
    reveal(CpuView::adc);
    reveal(CpuView::sbc);
    reveal(CpuView::lax);
    reveal(CpuView::pla);
}

/// Zero is set exactly when `v` is 0, and Negative exactly when bit 7 of `v`
/// is set.
pub open spec fn zn_follow(f: CpuFlags, v: u8) -> bool {
    f.zero == (v == 0) && f.negative == (v & 0x80 != 0)
}

/// The register transfers, increments and decrements, and the accumulator
/// shifts and rotates, set Zero and Negative from the register they write.
pub proof fn lemma_zero_negative_registers(s: CpuView)
    ensures
        zn_follow(s.execute(0xAA).0.p, s.execute(0xAA).0.x),
        zn_follow(s.execute(0xA8).0.p, s.execute(0xA8).0.y),
        zn_follow(s.execute(0xBA).0.p, s.execute(0xBA).0.x),
        zn_follow(s.execute(0x8A).0.p, s.execute(0x8A).0.a),
        zn_follow(s.execute(0x98).0.p, s.execute(0x98).0.a),
        zn_follow(s.execute(0xE8).0.p, s.execute(0xE8).0.x),
        zn_follow(s.execute(0xC8).0.p, s.execute(0xC8).0.y),
        zn_follow(s.execute(0xCA).0.p, s.execute(0xCA).0.x),
        zn_follow(s.execute(0x88).0.p, s.execute(0x88).0.y),
        zn_follow(s.asl_a().p, s.asl_a().a),
        zn_follow(s.lsr_a().p, s.lsr_a().a),
        zn_follow(s.rol_a().p, s.rol_a().a),
        zn_follow(s.ror_a().p, s.ror_a().a),
{
    reveal(CpuView::asl_a);
    reveal(CpuView::lsr_a);
    reveal(CpuView::rol_a);
    reveal(CpuView::ror_a);
    assert(zn_follow(s.execute(0xAA).0.p, s.execute(0xAA).0.x)) by {
        reveal(CpuView::execute);
    }
    assert(zn_follow(s.execute(0xA8).0.p, s.execute(0xA8).0.y)) by {
        reveal(CpuView::execute);
    }
    assert(zn_follow(s.execute(0xBA).0.p, s.execute(0xBA).0.x)) by {
        reveal(CpuView::execute);
    }
    assert(zn_follow(s.execute(0x8A).0.p, s.execute(0x8A).0.a)) by {
        reveal(CpuView::execute);
    }
    assert(zn_follow(s.execute(0x98).0.p, s.execute(0x98).0.a)) by {
        reveal(CpuView::execute);
    }
    assert(zn_follow(s.execute(0xE8).0.p, s.execute(0xE8).0.x)) by {
        reveal(CpuView::execute);
    }
    assert(zn_follow(s.execute(0xC8).0.p, s.execute(0xC8).0.y)) by {
        reveal(CpuView::execute);
    }
    assert(zn_follow(s.execute(0xCA).0.p, s.execute(0xCA).0.x)) by {
        reveal(CpuView::execute);
    }
    assert(zn_follow(s.execute(0x88).0.p, s.execute(0x88).0.y)) by {
        reveal(CpuView::execute);
    }
}

/// The read-modify-write instructions on memory set Zero and Negative from
/// the byte they store.
pub proof fn lemma_zero_negative_memory(s: CpuView, m: AddressingMode)
    ensures
        s.modify(m, |v: u8| wrap8(v + 1)) matches (_, Ok((_, d))) ==> zn_follow(s.inc(m).0.p, d),
        s.modify(m, |v: u8| wrap8(v - 1)) matches (_, Ok((_, d))) ==> zn_follow(s.dec(m).0.p, d),
        s.modify(m, |v: u8| v << 1) matches (_, Ok((_, d))) ==> zn_follow(s.asl(m).0.p, d),
        s.modify(m, |v: u8| v >> 1) matches (_, Ok((_, d))) ==> zn_follow(s.lsr(m).0.p, d),
        s.modify(m, |v: u8| (v << 1) | crate::cpu::bit(s.p.carry, 0x01)) matches (_, Ok((_, d)))
            ==> zn_follow(s.rol(m).0.p, d),
        s.modify(m, |v: u8| (v >> 1) | crate::cpu::bit(s.p.carry, 0x80)) matches (_, Ok((_, d)))
            ==> zn_follow(s.ror(m).0.p, d),
{
    reveal(CpuView::inc);
    reveal(CpuView::dec);
    reveal(CpuView::asl);
    reveal(CpuView::lsr);
    reveal(CpuView::rol);
    reveal(CpuView::ror);
}

/// RAM repeats every 0x0800 bytes up to 0x1FFF: a byte written at one
/// address is read back at every address that agrees with it modulo 0x0800.
pub proof fn lemma_ram_mirroring(b: BusView, a: u16, c: u16, v: u8)
    requires
        b.wf(),
        a <= 0x1fff,
        c <= 0x1fff,
        a % 0x0800 == c % 0x0800,
    ensures
        b.write(a, v).1 == Ok::<(), BusError>(()),
        b.write(a, v).0.read(c) == (b.write(a, v).0, Ok::<u8, BusError>(v)),
{
    reveal(BusView::read);
    reveal(BusView::write);
    assert(a & 0x07ff == a % 0x0800) by (bit_vector);
    assert(c & 0x07ff == c % 0x0800) by (bit_vector);
}

/// A 16-bit value pushed and popped back comes out unchanged, and the stack
/// pointer ends where it started.
pub proof fn lemma_stack_round_trip(s: CpuView, v: u16)
    requires
        s.bus.wf(),
    ensures
        s.push_u16(v).pop_u16().1 == v,
        s.push_u16(v).pop_u16().0.sp == s.sp,
{
}

/// Pushing the flags and pulling them back restores every flag but the two
/// Break bits, which come back clear and set.
pub proof fn lemma_php_plp(s: CpuView)
    requires
        s.bus.wf(),
    ensures
        s.php().plp().p == (CpuFlags { break_flag: false, break2: true, ..s.p }),
        s.php().plp().sp == s.sp,
{
    reveal(CpuView::php);
    reveal(CpuView::plp);
    lemma_flags_round_trip(CpuFlags { break_flag: true, break2: true, ..s.p });
}

/// A branch that is not taken moves the program counter over the opcode and
/// its operand; a taken branch with offset -2 comes back to its own opcode.
pub proof fn lemma_branch_step(s: CpuView, code: u8)
    requires
        s.bus.wf(),
        is_branch(code),
        plain(s.pc),
        plain(wrap16(s.pc + 1)),
        s.bus.peek(s.pc) == code,
    ensures
        !branch_taken(code, s) ==> s.step() == (s.with_pc(wrap16(s.pc + 2)), Ok::<Flow, CpuError>(
            Flow::Continue,
        )),
        branch_taken(code, s) && s.bus.peek(wrap16(s.pc + 1)) == 0xFE ==> s.step() == (
            s,
            Ok::<Flow, CpuError>(Flow::Continue),
        ),
{
    lemma_plain_read(s.bus, s.pc);
    lemma_plain_read(s.bus, wrap16(s.pc + 1));
    let t = s.with_pc(wrap16(s.pc + 1));
    assert(s.step() == t.execute(code));
    assert(t.execute(code) == continued(t.branch(branch_taken(code, s)))) by {
        reveal(CpuView::execute);
        if code == 0x10 {
        } else if code == 0x30 {
        } else if code == 0x50 {
        } else if code == 0x70 {
        } else if code == 0x90 {
        } else if code == 0xB0 {
        } else if code == 0xD0 {
        } else {
        }
    }
    reveal(CpuView::branch);
}

/// A subroutine call followed, after any code that leaves the stack as the
/// call left it, by a return lands on the instruction after the call, with
/// the stack pointer back where it was before the call.
pub proof fn lemma_jsr_rts(s: CpuView, u: CpuView)
    requires
        s.bus.wf(),
        u.bus.wf(),
        plain(s.pc),
        plain(wrap16(s.pc + 1)),
        plain(wrap16(s.pc + 2)),
        s.bus.peek(s.pc) == 0x20,
        plain(u.pc),
        u.bus.peek(u.pc) == 0x60,
        u.sp == s.step().0.sp,
        u.bus.ram[(STACK + wrap8(u.sp + 1)) as int] == s.step().0.bus.ram[(STACK + wrap8(u.sp + 1)) as int],
        u.bus.ram[(STACK + wrap8(u.sp + 2)) as int] == s.step().0.bus.ram[(STACK + wrap8(u.sp + 2)) as int],
    ensures
        s.step().1 == Ok::<Flow, CpuError>(Flow::Continue),
        u.step().1 == Ok::<Flow, CpuError>(Flow::Continue),
        u.step().0.pc == wrap16(s.pc + 3),
        u.step().0.sp == s.sp,
{
    reveal(CpuView::execute);
    reveal(CpuView::jsr);
    reveal(CpuView::rts);
    lemma_plain_read(s.bus, s.pc);
    lemma_plain_read(u.bus, u.pc);
    let t = s.with_pc(wrap16(s.pc + 1)).push_u16(wrap16(s.pc + 2));
    lemma_plain_read(t.bus, wrap16(s.pc + 1));
    lemma_plain_read(t.bus, wrap16(s.pc + 2));
}

} // verus!
