use vstd::prelude::*;

use crate::bus::{Bus, BusError, BusView};
use crate::opcodes;
use crate::opcodes::OpCode;


verus! {

/// Status register (P):
///
/// ```text
///  7 6 5 4 3 2 1 0
///  N V _ B D I Z C
/// ```
#[derive(Clone, Copy, Debug, PartialEq, Eq, Structural)]
pub struct CpuFlags {
    pub carry: bool,
    pub zero: bool,
    pub interrupt_disable: bool,
    pub decimal_mode: bool,
    pub break_flag: bool,
    pub break2: bool,
    pub overflow: bool,
    pub negative: bool,
}

pub open spec fn bit(b: bool, mask: u8) -> u8 {
    if b {
        mask
    } else {
        0
    }
}

/// `x` modulo 2^16, for `x` within one turn of the range.
pub open spec fn wrap16(x: int) -> u16 {
    if x >= 0x10000 {
        (x - 0x10000) as u16
    } else if x < 0 {
        (x + 0x10000) as u16
    } else {
        x as u16
    }
}

/// `x` modulo 2^8, for `x` within one turn of the range.
pub open spec fn wrap8(x: int) -> u8 {
    if x >= 0x100 {
        (x - 0x100) as u8
    } else if x < 0 {
        (x + 0x100) as u8
    } else {
        x as u8
    }
}

/// Bit 7 of `v` is set.
pub open spec fn sign_bit(v: u8) -> bool {
    v & 0x80 != 0
}

impl CpuFlags {
    /// The flags as one byte, bit positions as in the register.
    pub open spec fn to_byte(self) -> u8 {
        (bit(self.carry, 0x01) + bit(self.zero, 0x02) + bit(self.interrupt_disable, 0x04) + bit(
            self.decimal_mode,
            0x08,
        ) + bit(self.break_flag, 0x10) + bit(self.break2, 0x20) + bit(self.overflow, 0x40) + bit(
            self.negative,
            0x80,
        )) as u8
    }

    /// The flags that a byte holds.
    pub open spec fn of_byte(b: u8) -> CpuFlags {
        CpuFlags {
            carry: b & 0x01 != 0,
            zero: b & 0x02 != 0,
            interrupt_disable: b & 0x04 != 0,
            decimal_mode: b & 0x08 != 0,
            break_flag: b & 0x10 != 0,
            break2: b & 0x20 != 0,
            overflow: b & 0x40 != 0,
            negative: b & 0x80 != 0,
        }
    }

    /// Zero and Negative set from a result byte.
    pub open spec fn with_zn(self, v: u8) -> CpuFlags {
        CpuFlags { zero: v == 0, negative: sign_bit(v), ..self }
    }

    pub open spec fn with_carry(self, c: bool) -> CpuFlags {
        CpuFlags { carry: c, ..self }
    }

    /// The flags as the status-restoring instructions leave them: taken from
    /// a byte, with Break clear and Break2 set.
    pub open spec fn restored(b: u8) -> CpuFlags {
        CpuFlags { break_flag: false, break2: true, ..Self::of_byte(b) }
    }

    /// The power-up pattern: Interrupt Disable and Break2.
    pub open spec fn power_up() -> CpuFlags {
        Self::of_byte(0b0010_0100)
    }

    pub fn from_bits(b: u8) -> (r: CpuFlags)
        ensures
            r == Self::of_byte(b),
    {
        CpuFlags {
            carry: b & 0x01 != 0,
            zero: b & 0x02 != 0,
            interrupt_disable: b & 0x04 != 0,
            decimal_mode: b & 0x08 != 0,
            break_flag: b & 0x10 != 0,
            break2: b & 0x20 != 0,
            overflow: b & 0x40 != 0,
            negative: b & 0x80 != 0,
        }
    }

    pub fn bits(&self) -> (r: u8)
        ensures
            r == self.to_byte(),
    {
        let mut b: u8 = 0;
        if self.carry {
            b = b + 0x01;
        }
        if self.zero {
            b = b + 0x02;
        }
        if self.interrupt_disable {
            b = b + 0x04;
        }
        if self.decimal_mode {
            b = b + 0x08;
        }
        if self.break_flag {
            b = b + 0x10;
        }
        if self.break2 {
            b = b + 0x20;
        }
        if self.overflow {
            b = b + 0x40;
        }
        if self.negative {
            b = b + 0x80;
        }
        b
    }
}

/// Byte positions survive a trip through `to_byte` and `of_byte`.
pub proof fn lemma_flags_round_trip(f: CpuFlags)
    ensures
        CpuFlags::of_byte(f.to_byte()) == f,
{
    let (c, z, i, d, b, b2, v, n) = (
        f.carry,
        f.zero,
        f.interrupt_disable,
        f.decimal_mode,
        f.break_flag,
        f.break2,
        f.overflow,
        f.negative,
    );
    let x: u8 = f.to_byte();
    assert(x == (bit(c, 0x01) + bit(z, 0x02) + bit(i, 0x04) + bit(d, 0x08) + bit(b, 0x10) + bit(
        b2,
        0x20,
    ) + bit(v, 0x40) + bit(n, 0x80)) as u8);
    assert({
        &&& (x & 0x01 != 0) == c
        &&& (x & 0x02 != 0) == z
        &&& (x & 0x04 != 0) == i
        &&& (x & 0x08 != 0) == d
        &&& (x & 0x10 != 0) == b
        &&& (x & 0x20 != 0) == b2
        &&& (x & 0x40 != 0) == v
        &&& (x & 0x80 != 0) == n
    }) by (bit_vector)
        requires
            x == ((if c { 1u8 } else { 0u8 }) + (if z { 2u8 } else { 0u8 }) + (if i { 4u8 } else { 0u8 })
                + (if d { 8u8 } else { 0u8 }) + (if b { 16u8 } else { 0u8 }) + (if b2 { 32u8 } else { 0u8 })
                + (if v { 64u8 } else { 0u8 }) + (if n { 128u8 } else { 0u8 })) as u8,
    ;
}


/// The rule an instruction uses to find its operand from the bytes that
/// follow it and the index registers.
#[derive(Clone, Copy, Debug, PartialEq, Eq, Structural)]
pub enum AddressingMode {
    Immediate,
    ZeroPage,
    ZeroPageX,
    ZeroPageY,
    Absolute,
    AbsoluteX,
    AbsoluteY,
    IndirectX,
    IndirectY,
    NoneAddressing,
}

/// A condition that ends a run.
#[derive(Clone, Copy, Debug, PartialEq, Eq, Structural)]
pub enum CpuError {
    /// The address space refused an access.
    Bus(BusError),
    /// An operand address was asked of an instruction that has none.
    NoneAddressing,
}

/// How a step left the run.
#[derive(Clone, Copy, Debug, PartialEq, Eq, Structural)]
pub enum Flow {
    /// The next instruction follows.
    Continue,
    /// A BRK was executed.
    Break,
    /// A halting opcode was fetched.
    Halt,
}

/// Stack pointer after power-up.
pub const STACK_RESET: u8 = 0xFD;

/// Base of the stack page.
pub const STACK: u16 = 0x0100;

/// Where the reset vector is stored.
pub const RESET_VECTOR: u16 = 0xFFFC;

pub struct CPU {
    pub reg_x: u8,
    pub reg_y: u8,
    pub reg_a: u8,
    pub stack_ptr: u8,
    pub status_reg: CpuFlags,
    pub program_counter: u16,
    pub bus: Bus,
}

/// The state of a [`CPU`] as plain values.
pub struct CpuView {
    pub a: u8,
    pub x: u8,
    pub y: u8,
    pub sp: u8,
    pub p: CpuFlags,
    pub pc: u16,
    pub bus: BusView,
}

impl View for CPU {
    type V = CpuView;

    open spec fn view(&self) -> CpuView {
        CpuView {
            a: self.reg_a,
            x: self.reg_x,
            y: self.reg_y,
            sp: self.stack_ptr,
            p: self.status_reg,
            pc: self.program_counter,
            bus: self.bus@,
        }
    }
}

/// A state paired with what a step on it produced.
pub type Outcome<T> = (CpuView, Result<T, CpuError>);

impl CpuView {
    pub open spec fn with_a(self, v: u8) -> CpuView {
        CpuView { a: v, ..self }
    }

    pub open spec fn with_x(self, v: u8) -> CpuView {
        CpuView { x: v, ..self }
    }

    pub open spec fn with_y(self, v: u8) -> CpuView {
        CpuView { y: v, ..self }
    }

    pub open spec fn with_sp(self, v: u8) -> CpuView {
        CpuView { sp: v, ..self }
    }

    pub open spec fn with_p(self, f: CpuFlags) -> CpuView {
        CpuView { p: f, ..self }
    }

    pub open spec fn with_pc(self, pc: u16) -> CpuView {
        CpuView { pc: pc, ..self }
    }

    pub open spec fn with_carry(self, c: bool) -> CpuView {
        self.with_p(self.p.with_carry(c))
    }

    /// Zero and Negative updated from `v`.
    pub open spec fn zn(self, v: u8) -> CpuView {
        self.with_p(self.p.with_zn(v))
    }

    pub open spec fn read(self, addr: u16) -> Outcome<u8> {
        let (b, r) = self.bus.read(addr);
        match r {
            Ok(v) => (CpuView { bus: b, ..self }, Ok(v)),
            Err(e) => (CpuView { bus: b, ..self }, Err(CpuError::Bus(e))),
        }
    }

    pub open spec fn write(self, addr: u16, v: u8) -> Outcome<()> {
        let (b, r) = self.bus.write(addr, v);
        match r {
            Ok(_) => (CpuView { bus: b, ..self }, Ok(())),
            Err(e) => (CpuView { bus: b, ..self }, Err(CpuError::Bus(e))),
        }
    }

    /// Two bytes read at `addr` and the address after it, little-endian.
    pub open spec fn read_u16(self, addr: u16) -> Outcome<u16> {
        let (s1, lo) = self.read(addr);
        match lo {
            Err(e) => (s1, Err(e)),
            Ok(lo) => {
                let (s2, hi) = s1.read(wrap16(addr + 1));
                match hi {
                    Err(e) => (s2, Err(e)),
                    Ok(hi) => (s2, Ok((hi as int * 256 + lo as int) as u16)),
                }
            },
        }
    }

    /// Two bytes read at zero-page address `ptr` and the one after it,
    /// wrapping within the zero page.
    pub open spec fn read_zp_pointer(self, ptr: u8) -> Outcome<u16> {
        let (s1, lo) = self.read(ptr as u16);
        match lo {
            Err(e) => (s1, Err(e)),
            Ok(lo) => {
                let (s2, hi) = s1.read(wrap8(ptr + 1) as u16);
                match hi {
                    Err(e) => (s2, Err(e)),
                    Ok(hi) => (s2, Ok((hi as int * 256 + lo as int) as u16)),
                }
            },
        }
    }

    /// The operand address of `mode`, from the bytes at the program counter.
    pub open spec fn operand_address(self, mode: AddressingMode) -> Outcome<u16> {
        match mode {
            AddressingMode::Immediate => (self, Ok(self.pc)),
            AddressingMode::ZeroPage => match self.read(self.pc) {
                (s, Ok(b)) => (s, Ok(b as u16)),
                (s, Err(e)) => (s, Err(e)),
            },
            AddressingMode::ZeroPageX => match self.read(self.pc) {
                (s, Ok(b)) => (s, Ok(wrap8(b + self.x) as u16)),
                (s, Err(e)) => (s, Err(e)),
            },
            AddressingMode::ZeroPageY => match self.read(self.pc) {
                (s, Ok(b)) => (s, Ok(wrap8(b + self.y) as u16)),
                (s, Err(e)) => (s, Err(e)),
            },
            AddressingMode::Absolute => self.read_u16(self.pc),
            AddressingMode::AbsoluteX => match self.read_u16(self.pc) {
                (s, Ok(w)) => (s, Ok(wrap16(w + self.x))),
                (s, Err(e)) => (s, Err(e)),
            },
            AddressingMode::AbsoluteY => match self.read_u16(self.pc) {
                (s, Ok(w)) => (s, Ok(wrap16(w + self.y))),
                (s, Err(e)) => (s, Err(e)),
            },
            AddressingMode::IndirectX => match self.read(self.pc) {
                (s, Ok(b)) => s.read_zp_pointer(wrap8(b + self.x)),
                (s, Err(e)) => (s, Err(e)),
            },
            AddressingMode::IndirectY => match self.read(self.pc) {
                (s, Ok(b)) => match s.read_zp_pointer(b) {
                    (t, Ok(w)) => (t, Ok(wrap16(w + self.y))),
                    (t, Err(e)) => (t, Err(e)),
                },
                (s, Err(e)) => (s, Err(e)),
            },
            AddressingMode::NoneAddressing => (self, Err(CpuError::NoneAddressing)),
        }
    }

    /// The operand byte of `mode`: its address resolved, then read.
    pub open spec fn load(self, mode: AddressingMode) -> Outcome<u8> {
        match self.operand_address(mode) {
            (s, Ok(addr)) => s.read(addr),
            (s, Err(e)) => (s, Err(e)),
        }
    }

    /// Address in the stack page that the stack pointer selects.
    pub open spec fn stack_top(self) -> u16 {
        (STACK + self.sp) as u16
    }

    /// `v` stored at the top of the stack, which then moves down.
    pub open spec fn push(self, v: u8) -> CpuView {
        CpuView {
            bus: BusView { ram: self.bus.ram.update(self.stack_top() as int, v), ..self.bus },
            sp: wrap8(self.sp - 1),
            ..self
        }
    }

    /// The stack moves up, and the byte there is returned.
    pub open spec fn pop(self) -> (CpuView, u8) {
        let s = self.with_sp(wrap8(self.sp + 1));
        (s, s.bus.ram[s.stack_top() as int])
    }

    /// High byte pushed first, then the low byte.
    pub open spec fn push_u16(self, v: u16) -> CpuView {
        self.push((v / 256) as u8).push((v % 256) as u8)
    }

    /// Low byte popped first, then the high byte.
    pub open spec fn pop_u16(self) -> (CpuView, u16) {
        let (s1, lo) = self.pop();
        let (s2, hi) = s1.pop();
        (s2, (hi as int * 256 + lo as int) as u16)
    }

    /// The byte as a signed offset.
    pub open spec fn signed(b: u8) -> int {
        if b >= 0x80 {
            b as int - 0x100
        } else {
            b as int
        }
    }

    /// Resolve the operand address of `m`, read the byte there, store `f` of
    /// it back; yields the byte read and the byte stored.
    pub open spec fn modify(self, m: AddressingMode, f: spec_fn(u8) -> u8) -> Outcome<(u8, u8)> {
        match self.operand_address(m) {
            (s, Err(e)) => (s, Err(e)),
            (s, Ok(addr)) => match s.read(addr) {
                (t, Err(e)) => (t, Err(e)),
                (t, Ok(v)) => match t.write(addr, f(v)) {
                    (u, Ok(_)) => (u, Ok((v, f(v)))),
                    (u, Err(e)) => (u, Err(e)),
                },
            },
        }
    }

    /// Resolve the operand address of `m` and store `v` there.
    pub open spec fn store(self, m: AddressingMode, v: u8) -> Outcome<()> {
        match self.operand_address(m) {
            (s, Ok(addr)) => s.write(addr, v),
            (s, Err(e)) => (s, Err(e)),
        }
    }

    /// Add with carry: the sum of the operand, the accumulator and the carry.
    pub open spec fn add_to_a(self, m: u8) -> CpuView {
        let sum = m as int + self.a as int + (if self.p.carry { 1int } else { 0 });
        let r = wrap8(sum);
        CpuView {
            a: r,
            p: CpuFlags {
                carry: sum > 0xff,
                overflow: (m ^ r) & (self.a ^ r) & 0x80 != 0,
                ..self.p.with_zn(r)
            },
            ..self
        }
    }

    /// Compare: Carry when `reg >= v`, Zero and Negative from `reg - v`.
    pub open spec fn compare(self, reg: u8, v: u8) -> CpuView {
        self.zn(wrap8(reg - v)).with_carry(reg >= v)
    }

    #[verifier::opaque]
    pub open spec fn lda(self, m: AddressingMode) -> Outcome<()> {
        match self.load(m) {
            (s, Ok(v)) => (s.with_a(v).zn(v), Ok(())),
            (s, Err(e)) => (s, Err(e)),
        }
    }

    #[verifier::opaque]
    pub open spec fn ldx(self, m: AddressingMode) -> Outcome<()> {
        match self.load(m) {
            (s, Ok(v)) => (s.with_x(v).zn(v), Ok(())),
            (s, Err(e)) => (s, Err(e)),
        }
    }

    #[verifier::opaque]
    pub open spec fn ldy(self, m: AddressingMode) -> Outcome<()> {
        match self.load(m) {
            (s, Ok(v)) => (s.with_y(v).zn(v), Ok(())),
            (s, Err(e)) => (s, Err(e)),
        }
    }

    #[verifier::opaque]
    pub open spec fn and(self, m: AddressingMode) -> Outcome<()> {
        match self.load(m) {
            (s, Ok(v)) => (s.with_a(s.a & v).zn(s.a & v), Ok(())),
            (s, Err(e)) => (s, Err(e)),
        }
    }

    #[verifier::opaque]
    pub open spec fn eor(self, m: AddressingMode) -> Outcome<()> {
        match self.load(m) {
            (s, Ok(v)) => (s.with_a(s.a ^ v).zn(s.a ^ v), Ok(())),
            (s, Err(e)) => (s, Err(e)),
        }
    }

    #[verifier::opaque]
    pub open spec fn ora(self, m: AddressingMode) -> Outcome<()> {
        match self.load(m) {
            (s, Ok(v)) => (s.with_a(s.a | v).zn(s.a | v), Ok(())),
            (s, Err(e)) => (s, Err(e)),
        }
    }

    #[verifier::opaque]
    pub open spec fn adc(self, m: AddressingMode) -> Outcome<()> {
        match self.load(m) {
            (s, Ok(v)) => (s.add_to_a(v), Ok(())),
            (s, Err(e)) => (s, Err(e)),
        }
    }

    /// Subtract with borrow: an add of the operand's one's complement.
    #[verifier::opaque]
    pub open spec fn sbc(self, m: AddressingMode) -> Outcome<()> {
        match self.load(m) {
            (s, Ok(v)) => (s.add_to_a(!v), Ok(())),
            (s, Err(e)) => (s, Err(e)),
        }
    }

    #[verifier::opaque]
    pub open spec fn cmp(self, m: AddressingMode) -> Outcome<()> {
        match self.load(m) {
            (s, Ok(v)) => (s.compare(s.a, v), Ok(())),
            (s, Err(e)) => (s, Err(e)),
        }
    }

    #[verifier::opaque]
    pub open spec fn cpx(self, m: AddressingMode) -> Outcome<()> {
        match self.load(m) {
            (s, Ok(v)) => (s.compare(s.x, v), Ok(())),
            (s, Err(e)) => (s, Err(e)),
        }
    }

    #[verifier::opaque]
    pub open spec fn cpy(self, m: AddressingMode) -> Outcome<()> {
        match self.load(m) {
            (s, Ok(v)) => (s.compare(s.y, v), Ok(())),
            (s, Err(e)) => (s, Err(e)),
        }
    }

    /// Bit test: Zero from `a & v`, Negative and Overflow from bits 7 and 6
    /// of the operand.
    #[verifier::opaque]
    pub open spec fn bit(self, m: AddressingMode) -> Outcome<()> {
        match self.load(m) {
            (s, Ok(v)) => (
                s.with_p(
                    CpuFlags {
                        zero: s.a & v == 0,
                        negative: v & 0x80 != 0,
                        overflow: v & 0x40 != 0,
                        ..s.p
                    },
                ),
                Ok(()),
            ),
            (s, Err(e)) => (s, Err(e)),
        }
    }

    #[verifier::opaque]
    pub open spec fn sta(self, m: AddressingMode) -> Outcome<()> {
        self.store(m, self.a)
    }

    #[verifier::opaque]
    pub open spec fn stx(self, m: AddressingMode) -> Outcome<()> {
        self.store(m, self.x)
    }

    #[verifier::opaque]
    pub open spec fn sty(self, m: AddressingMode) -> Outcome<()> {
        self.store(m, self.y)
    }

    #[verifier::opaque]
    pub open spec fn inc(self, m: AddressingMode) -> Outcome<()> {
        match self.modify(m, |v: u8| wrap8(v + 1)) {
            (s, Ok((_, d))) => (s.zn(d), Ok(())),
            (s, Err(e)) => (s, Err(e)),
        }
    }

    #[verifier::opaque]
    pub open spec fn dec(self, m: AddressingMode) -> Outcome<()> {
        match self.modify(m, |v: u8| wrap8(v - 1)) {
            (s, Ok((_, d))) => (s.zn(d), Ok(())),
            (s, Err(e)) => (s, Err(e)),
        }
    }

    /// Shift left: Carry takes bit 7.
    #[verifier::opaque]
    pub open spec fn asl(self, m: AddressingMode) -> Outcome<()> {
        match self.modify(m, |v: u8| v << 1) {
            (s, Ok((v, d))) => (s.with_carry(sign_bit(v)).zn(d), Ok(())),
            (s, Err(e)) => (s, Err(e)),
        }
    }

    /// Shift right: Carry takes bit 0.
    #[verifier::opaque]
    pub open spec fn lsr(self, m: AddressingMode) -> Outcome<()> {
        match self.modify(m, |v: u8| v >> 1) {
            (s, Ok((v, d))) => (s.with_carry(v & 1 != 0).zn(d), Ok(())),
            (s, Err(e)) => (s, Err(e)),
        }
    }

    /// Rotate left through Carry.
    #[verifier::opaque]
    pub open spec fn rol(self, m: AddressingMode) -> Outcome<()> {
        let c = self.p.carry;
        match self.modify(m, |v: u8| (v << 1) | bit(c, 0x01)) {
            (s, Ok((v, d))) => (s.with_carry(sign_bit(v)).zn(d), Ok(())),
            (s, Err(e)) => (s, Err(e)),
        }
    }

    /// Rotate right through Carry.
    #[verifier::opaque]
    pub open spec fn ror(self, m: AddressingMode) -> Outcome<()> {
        let c = self.p.carry;
        match self.modify(m, |v: u8| (v >> 1) | bit(c, 0x80)) {
            (s, Ok((v, d))) => (s.with_carry(v & 1 != 0).zn(d), Ok(())),
            (s, Err(e)) => (s, Err(e)),
        }
    }

    #[verifier::opaque]
    pub open spec fn asl_a(self) -> CpuView {
        self.with_carry(sign_bit(self.a)).with_a(self.a << 1).zn(self.a << 1)
    }

    #[verifier::opaque]
    pub open spec fn lsr_a(self) -> CpuView {
        self.with_carry(self.a & 1 != 0).with_a(self.a >> 1).zn(self.a >> 1)
    }

    #[verifier::opaque]
    pub open spec fn rol_a(self) -> CpuView {
        let r = (self.a << 1) | bit(self.p.carry, 0x01);
        self.with_carry(sign_bit(self.a)).with_a(r).zn(r)
    }

    #[verifier::opaque]
    pub open spec fn ror_a(self) -> CpuView {
        let r = (self.a >> 1) | bit(self.p.carry, 0x80);
        self.with_carry(self.a & 1 != 0).with_a(r).zn(r)
    }

    /// A relative branch at the operand byte: taken, the program counter
    /// moves by the signed offset past the operand; not taken, it steps over
    /// the operand.
    #[verifier::opaque]
    pub open spec fn branch(self, cond: bool) -> Outcome<()> {
        if cond {
            match self.read(self.pc) {
                (s, Ok(off)) => (s.with_pc(wrap16(self.pc + 1 + Self::signed(off))), Ok(())),
                (s, Err(e)) => (s, Err(e)),
            }
        } else {
            (self.with_pc(wrap16(self.pc + 1)), Ok(()))
        }
    }

    /// Jump to subroutine: the address of the instruction's last byte is
    /// pushed, then the program counter takes the absolute target.
    #[verifier::opaque]
    pub open spec fn jsr(self) -> Outcome<()> {
        let s = self.push_u16(wrap16(self.pc + 1));
        match s.read_u16(self.pc) {
            (t, Ok(target)) => (t.with_pc(target), Ok(())),
            (t, Err(e)) => (t, Err(e)),
        }
    }

    /// Return from subroutine: the popped address plus one.
    #[verifier::opaque]
    pub open spec fn rts(self) -> CpuView {
        let (s, ret) = self.pop_u16();
        s.with_pc(wrap16(ret + 1))
    }

    /// Return from interrupt: flags, then the return address as popped.
    #[verifier::opaque]
    pub open spec fn rti(self) -> CpuView {
        let (s, b) = self.pop();
        let (t, ret) = s.with_p(CpuFlags::restored(b)).pop_u16();
        t.with_pc(ret)
    }

    /// Target of an indirect jump through `addr`; a pointer at the end of a
    /// page takes its high byte from the start of the same page.
    pub open spec fn indirect_target(self, addr: u16) -> Outcome<u16> {
        if addr & 0x00ff == 0x00ff {
            match self.read(addr) {
                (s, Err(e)) => (s, Err(e)),
                (s, Ok(lo)) => match s.read(addr & 0xff00) {
                    (t, Err(e)) => (t, Err(e)),
                    (t, Ok(hi)) => (t, Ok((hi as int * 256 + lo as int) as u16)),
                },
            }
        } else {
            self.read_u16(addr)
        }
    }

    #[verifier::opaque]
    pub open spec fn jmp_absolute(self) -> Outcome<()> {
        match self.read_u16(self.pc) {
            (s, Ok(target)) => (s.with_pc(target), Ok(())),
            (s, Err(e)) => (s, Err(e)),
        }
    }

    #[verifier::opaque]
    pub open spec fn jmp_indirect(self) -> Outcome<()> {
        match self.read_u16(self.pc) {
            (s, Err(e)) => (s, Err(e)),
            (s, Ok(addr)) => match s.indirect_target(addr) {
                (t, Ok(target)) => (t.with_pc(target), Ok(())),
                (t, Err(e)) => (t, Err(e)),
            },
        }
    }

    /// Push of the flags, with both Break bits set in the pushed byte.
    #[verifier::opaque]
    pub open spec fn php(self) -> CpuView {
        self.push(CpuFlags { break_flag: true, break2: true, ..self.p }.to_byte())
    }

    #[verifier::opaque]
    pub open spec fn plp(self) -> CpuView {
        let (s, b) = self.pop();
        s.with_p(CpuFlags::restored(b))
    }

    #[verifier::opaque]
    pub open spec fn pla(self) -> CpuView {
        let (s, v) = self.pop();
        s.with_a(v).zn(v)
    }

    // Undocumented instructions.

    /// AND with the immediate operand; Carry takes bit 7 of the result.
    #[verifier::opaque]
    pub open spec fn aac(self) -> Outcome<()> {
        match self.read(self.pc) {
            (s, Ok(v)) => {
                let r = s.a & v;
                (s.with_a(r).zn(r).with_carry(sign_bit(r)), Ok(()))
            },
            (s, Err(e)) => (s, Err(e)),
        }
    }

    /// Store `a & x`.
    #[verifier::opaque]
    pub open spec fn aax(self, m: AddressingMode) -> Outcome<()> {
        self.store(m, self.x & self.a)
    }

    /// AND with the immediate operand, then rotate the accumulator right
    /// through Carry; Carry takes bit 6 of the result and Overflow bit 6
    /// xor bit 5.
    #[verifier::opaque]
    pub open spec fn arr(self) -> Outcome<()> {
        match self.read(self.pc) {
            (s, Ok(v)) => {
                let r = ((s.a & v) >> 1) | bit(s.p.carry, 0x80);
                (
                    s.with_p(
                        CpuFlags {
                            carry: r & 0x40 != 0,
                            overflow: (r & 0x40 != 0) != (r & 0x20 != 0),
                            ..s.p.with_zn(r)
                        },
                    ).with_a(r),
                    Ok(()),
                )
            },
            (s, Err(e)) => (s, Err(e)),
        }
    }

    /// AND with the immediate operand, then shift the accumulator right.
    #[verifier::opaque]
    pub open spec fn asr(self) -> Outcome<()> {
        match self.read(self.pc) {
            (s, Ok(v)) => {
                let t = s.a & v;
                (s.with_carry(t & 1 != 0).with_a(t >> 1).zn(t >> 1), Ok(()))
            },
            (s, Err(e)) => (s, Err(e)),
        }
    }

    /// AND with the immediate operand into both A and X.
    #[verifier::opaque]
    pub open spec fn atx(self) -> Outcome<()> {
        match self.read(self.pc) {
            (s, Ok(v)) => {
                let r = s.a & v;
                (s.with_a(r).with_x(r).zn(r), Ok(()))
            },
            (s, Err(e)) => (s, Err(e)),
        }
    }

    /// Store `a & x & 7`.
    #[verifier::opaque]
    pub open spec fn axa(self, m: AddressingMode) -> Outcome<()> {
        self.store(m, self.a & self.x & 0x07)
    }

    /// X takes `(x & a) - operand`, with the flags of a compare.
    #[verifier::opaque]
    pub open spec fn axs(self) -> Outcome<()> {
        match self.read(self.pc) {
            (s, Ok(v)) => {
                let t = s.x & s.a;
                (s.compare(t, v).with_x(wrap8(t - v)), Ok(()))
            },
            (s, Err(e)) => (s, Err(e)),
        }
    }

    /// Decrement memory, then compare A with the decremented byte.
    #[verifier::opaque]
    pub open spec fn dcp(self, m: AddressingMode) -> Outcome<()> {
        match self.modify(m, |v: u8| wrap8(v - 1)) {
            (s, Ok((_, d))) => (
                s.with_carry(d <= s.a).zn(wrap8(s.a - d)),
                Ok(()),
            ),
            (s, Err(e)) => (s, Err(e)),
        }
    }

    /// Read the operand and discard it.
    #[verifier::opaque]
    pub open spec fn dop(self, m: AddressingMode) -> Outcome<()> {
        match self.load(m) {
            (s, Ok(_)) => (s, Ok(())),
            (s, Err(e)) => (s, Err(e)),
        }
    }

    /// Increment memory, then subtract it from A.
    #[verifier::opaque]
    pub open spec fn isc(self, m: AddressingMode) -> Outcome<()> {
        match self.inc(m) {
            (s, Ok(_)) => s.sbc(m),
            (s, Err(e)) => (s, Err(e)),
        }
    }

    /// A, X and the stack pointer all take `operand & sp`.
    #[verifier::opaque]
    pub open spec fn lar(self, m: AddressingMode) -> Outcome<()> {
        match self.load(m) {
            (s, Ok(v)) => {
                let r = v & s.sp;
                (s.with_a(r).with_x(r).with_sp(r).zn(r), Ok(()))
            },
            (s, Err(e)) => (s, Err(e)),
        }
    }

    /// Load both A and X.
    #[verifier::opaque]
    pub open spec fn lax(self, m: AddressingMode) -> Outcome<()> {
        match self.load(m) {
            (s, Ok(v)) => (s.with_a(v).with_x(v).zn(v), Ok(())),
            (s, Err(e)) => (s, Err(e)),
        }
    }

    /// Rotate memory left, then AND it into A.
    #[verifier::opaque]
    pub open spec fn rla(self, m: AddressingMode) -> Outcome<()> {
        let c = self.p.carry;
        match self.modify(m, |v: u8| (v << 1) | bit(c, 0x01)) {
            (s, Ok((v, d))) => (s.with_a(s.a & d).with_carry(sign_bit(v)).zn(s.a & d), Ok(())),
            (s, Err(e)) => (s, Err(e)),
        }
    }

    /// Rotate memory right, then add it to A.
    #[verifier::opaque]
    pub open spec fn rra(self, m: AddressingMode) -> Outcome<()> {
        let c = self.p.carry;
        match self.modify(m, |v: u8| (v >> 1) | bit(c, 0x80)) {
            (s, Ok((v, d))) => (s.with_carry(v & 1 != 0).add_to_a(d), Ok(())),
            (s, Err(e)) => (s, Err(e)),
        }
    }

    /// Shift memory left, then OR it into A.
    #[verifier::opaque]
    pub open spec fn slo(self, m: AddressingMode) -> Outcome<()> {
        match self.modify(m, |v: u8| v << 1) {
            (s, Ok((v, d))) => (s.with_carry(sign_bit(v)).with_a(s.a | d).zn(s.a | d), Ok(())),
            (s, Err(e)) => (s, Err(e)),
        }
    }

    /// Shift memory right, then XOR it into A.
    #[verifier::opaque]
    pub open spec fn sre(self, m: AddressingMode) -> Outcome<()> {
        match self.modify(m, |v: u8| v >> 1) {
            (s, Ok((v, d))) => (s.with_carry(v & 1 != 0).with_a(s.a ^ d).zn(s.a ^ d), Ok(())),
            (s, Err(e)) => (s, Err(e)),
        }
    }

    /// High byte of `addr`, plus one.
    pub open spec fn high_plus_one(addr: u16) -> u8 {
        wrap8(addr / 256 + 1)
    }

    /// Store `x & (high byte of the address + 1)` at the absolute,Y address.
    #[verifier::opaque]
    pub open spec fn sxa(self) -> Outcome<()> {
        match self.operand_address(AddressingMode::AbsoluteY) {
            (s, Ok(addr)) => s.write(addr, Self::high_plus_one(addr) & s.x),
            (s, Err(e)) => (s, Err(e)),
        }
    }

    /// Store `y & (high byte of the address + 1)` at the absolute,X address.
    #[verifier::opaque]
    pub open spec fn sya(self) -> Outcome<()> {
        match self.operand_address(AddressingMode::AbsoluteX) {
            (s, Ok(addr)) => s.write(addr, Self::high_plus_one(addr) & s.y),
            (s, Err(e)) => (s, Err(e)),
        }
    }

    /// A takes `x & operand`.
    #[verifier::opaque]
    pub open spec fn xaa(self) -> Outcome<()> {
        match self.read(self.pc) {
            (s, Ok(v)) => (s.with_a(s.x & v).zn(s.x & v), Ok(())),
            (s, Err(e)) => (s, Err(e)),
        }
    }

    /// The stack pointer takes `a & x`, and `sp & (high byte + 1)` is stored
    /// at the absolute,Y address.
    #[verifier::opaque]
    pub open spec fn xas(self) -> Outcome<()> {
        match self.operand_address(AddressingMode::AbsoluteY) {
            (s, Ok(addr)) => {
                let t = s.with_sp(s.a & s.x);
                t.write(addr, Self::high_plus_one(addr) & t.sp)
            },
            (s, Err(e)) => (s, Err(e)),
        }
    }
}

/// An instruction body followed by the generic advance of the program
/// counter over the operand bytes (`bytes - 1`).
pub open spec fn advanced(o: Outcome<()>, bytes: u8) -> Outcome<Flow> {
    match o {
        (s, Ok(_)) => (s.with_pc(wrap16(s.pc + bytes - 1)), Ok(Flow::Continue)),
        (s, Err(e)) => (s, Err(e)),
    }
}

/// An instruction body that sets the program counter itself.
pub open spec fn continued(o: Outcome<()>) -> Outcome<Flow> {
    match o {
        (s, Ok(_)) => (s, Ok(Flow::Continue)),
        (s, Err(e)) => (s, Err(e)),
    }
}

impl CpuView {
    /// The effect of opcode `code`, the program counter standing on the
    /// byte after it.
    #[verifier::opaque]
    pub open spec fn execute(self, code: u8) -> Outcome<Flow> {
        let op = opcodes::opcode_spec(code);
        match code {
            // BRK
            0x00 => (self.with_p(CpuFlags { break_flag: true, ..self.p }), Ok(Flow::Break)),
            // KIL
            0x02 | 0x12 | 0x22 | 0x32 | 0x42 | 0x52 | 0x62 | 0x72 | 0x92 | 0xB2 | 0xD2 | 0xF2 => (self, Ok(Flow::Halt)),
            // NOP
            0x1A | 0x3A | 0x5A | 0x7A | 0xDA | 0xEA | 0xFA => (self, Ok(Flow::Continue)),
            // ADC
            0x61 | 0x65 | 0x69 | 0x6D | 0x71 | 0x75 | 0x79 | 0x7D => advanced(self.adc(op.addr_mode), op.bytes),
            // SBC
            0xE1 | 0xE5 | 0xE9 | 0xEB | 0xED | 0xF1 | 0xF5 | 0xF9 | 0xFD => advanced(self.sbc(op.addr_mode), op.bytes),
            // AND
            0x21 | 0x25 | 0x29 | 0x2D | 0x31 | 0x35 | 0x39 | 0x3D => advanced(self.and(op.addr_mode), op.bytes),
            // EOR
            0x41 | 0x45 | 0x49 | 0x4D | 0x51 | 0x55 | 0x59 | 0x5D => advanced(self.eor(op.addr_mode), op.bytes),
            // ORA
            0x01 | 0x05 | 0x09 | 0x0D | 0x11 | 0x15 | 0x19 | 0x1D => advanced(self.ora(op.addr_mode), op.bytes),
            // CMP
            0xC1 | 0xC5 | 0xC9 | 0xCD | 0xD1 | 0xD5 | 0xD9 | 0xDD => advanced(self.cmp(op.addr_mode), op.bytes),
            // CPX
            0xE0 | 0xE4 | 0xEC => advanced(self.cpx(op.addr_mode), op.bytes),
            // CPY
            0xC0 | 0xC4 | 0xCC => advanced(self.cpy(op.addr_mode), op.bytes),
            // BIT
            0x24 | 0x2C => advanced(self.bit(op.addr_mode), op.bytes),
            // LDA
            0xA1 | 0xA5 | 0xA9 | 0xAD | 0xB1 | 0xB5 | 0xB9 | 0xBD => advanced(self.lda(op.addr_mode), op.bytes),
            // LDX
            0xA2 | 0xA6 | 0xAE | 0xB6 | 0xBE => advanced(self.ldx(op.addr_mode), op.bytes),
            // LDY
            0xA0 | 0xA4 | 0xAC | 0xB4 | 0xBC => advanced(self.ldy(op.addr_mode), op.bytes),
            // STA
            0x81 | 0x85 | 0x8D | 0x91 | 0x95 | 0x99 | 0x9D => advanced(self.sta(op.addr_mode), op.bytes),
            // STX
            0x86 | 0x8E | 0x96 => advanced(self.stx(op.addr_mode), op.bytes),
            // STY
            0x84 | 0x8C | 0x94 => advanced(self.sty(op.addr_mode), op.bytes),
            // INC
            0xE6 | 0xEE | 0xF6 | 0xFE => advanced(self.inc(op.addr_mode), op.bytes),
            // DEC
            0xC6 | 0xCE | 0xD6 | 0xDE => advanced(self.dec(op.addr_mode), op.bytes),
            // AAX
            0x83 | 0x87 | 0x8F | 0x97 => advanced(self.aax(op.addr_mode), op.bytes),
            // AXA
            0x93 | 0x9F => advanced(self.axa(op.addr_mode), op.bytes),
            // DCP
            0xC3 | 0xC7 | 0xCF | 0xD3 | 0xD7 | 0xDB | 0xDF => advanced(self.dcp(op.addr_mode), op.bytes),
            // ISC
            0xE3 | 0xE7 | 0xEF | 0xF3 | 0xF7 | 0xFB | 0xFF => advanced(self.isc(op.addr_mode), op.bytes),
            // LAR
            0xBB => advanced(self.lar(op.addr_mode), op.bytes),
            // LAX
            0xA3 | 0xA7 | 0xAF | 0xB3 | 0xB7 | 0xBF => advanced(self.lax(op.addr_mode), op.bytes),
            // RLA
            0x23 | 0x27 | 0x2F | 0x33 | 0x37 | 0x3B | 0x3F => advanced(self.rla(op.addr_mode), op.bytes),
            // RRA
            0x63 | 0x67 | 0x6F | 0x73 | 0x77 | 0x7B | 0x7F => advanced(self.rra(op.addr_mode), op.bytes),
            // SLO
            0x03 | 0x07 | 0x0F | 0x13 | 0x17 | 0x1B | 0x1F => advanced(self.slo(op.addr_mode), op.bytes),
            // SRE
            0x43 | 0x47 | 0x4F | 0x53 | 0x57 | 0x5B | 0x5F => advanced(self.sre(op.addr_mode), op.bytes),
            // DOP, TOP
            0x04 | 0x0C | 0x14 | 0x1C | 0x34 | 0x3C | 0x44 | 0x54 | 0x5C | 0x64 | 0x74 | 0x7C | 0x80 | 0x82 | 0x89 | 0xC2 | 0xD4 | 0xDC | 0xE2 | 0xF4 | 0xFC => advanced(self.dop(op.addr_mode), op.bytes),
            // ASL A
            0x0A => (self.asl_a(), Ok(Flow::Continue)),
            // ASL
            0x06 | 0x0E | 0x16 | 0x1E => advanced(self.asl(op.addr_mode), op.bytes),
            // LSR A
            0x4A => (self.lsr_a(), Ok(Flow::Continue)),
            // LSR
            0x46 | 0x4E | 0x56 | 0x5E => advanced(self.lsr(op.addr_mode), op.bytes),
            // ROL A
            0x2A => (self.rol_a(), Ok(Flow::Continue)),
            // ROL
            0x26 | 0x2E | 0x36 | 0x3E => advanced(self.rol(op.addr_mode), op.bytes),
            // ROR A
            0x6A => (self.ror_a(), Ok(Flow::Continue)),
            // ROR
            0x66 | 0x6E | 0x76 | 0x7E => advanced(self.ror(op.addr_mode), op.bytes),
            // AAC
            0x0B | 0x2B => advanced(self.aac(), op.bytes),
            // ARR
            0x6B => advanced(self.arr(), op.bytes),
            // ASR
            0x4B => advanced(self.asr(), op.bytes),
            // ATX
            0xAB => advanced(self.atx(), op.bytes),
            // AXS
            0xCB => advanced(self.axs(), op.bytes),
            // XAA
            0x8B => advanced(self.xaa(), op.bytes),
            // SXA
            0x9E => advanced(self.sxa(), op.bytes),
            // SYA
            0x9C => advanced(self.sya(), op.bytes),
            // XAS
            0x9B => advanced(self.xas(), op.bytes),
            // CLC
            0x18 => (self.with_p(CpuFlags { carry: false, ..self.p }), Ok(Flow::Continue)),
            // SEC
            0x38 => (self.with_p(CpuFlags { carry: true, ..self.p }), Ok(Flow::Continue)),
            // CLD
            0xD8 => (self.with_p(CpuFlags { decimal_mode: false, ..self.p }), Ok(Flow::Continue)),
            // SED
            0xF8 => (self.with_p(CpuFlags { decimal_mode: true, ..self.p }), Ok(Flow::Continue)),
            // CLI
            0x58 => (self.with_p(CpuFlags { interrupt_disable: false, ..self.p }), Ok(Flow::Continue)),
            // SEI
            0x78 => (self.with_p(CpuFlags { interrupt_disable: true, ..self.p }), Ok(Flow::Continue)),
            // CLV
            0xB8 => (self.with_p(CpuFlags { overflow: false, ..self.p }), Ok(Flow::Continue)),
            // BCC
            0x90 => continued(self.branch(!self.p.carry)),
            // BCS
            0xB0 => continued(self.branch(self.p.carry)),
            // BEQ
            0xF0 => continued(self.branch(self.p.zero)),
            // BNE
            0xD0 => continued(self.branch(!self.p.zero)),
            // BMI
            0x30 => continued(self.branch(self.p.negative)),
            // BPL
            0x10 => continued(self.branch(!self.p.negative)),
            // BVC
            0x50 => continued(self.branch(!self.p.overflow)),
            // BVS
            0x70 => continued(self.branch(self.p.overflow)),
            // JMP absolute
            0x4C => continued(self.jmp_absolute()),
            // JMP indirect
            0x6C => continued(self.jmp_indirect()),
            // JSR
            0x20 => continued(self.jsr()),
            // RTI
            0x40 => (self.rti(), Ok(Flow::Continue)),
            // RTS
            0x60 => (self.rts(), Ok(Flow::Continue)),
            // PHA
            0x48 => (self.push(self.a), Ok(Flow::Continue)),
            // PLA
            0x68 => (self.pla(), Ok(Flow::Continue)),
            // PHP
            0x08 => (self.php(), Ok(Flow::Continue)),
            // PLP
            0x28 => (self.plp(), Ok(Flow::Continue)),
            // TAX
            0xAA => (self.with_x(self.a).zn(self.a), Ok(Flow::Continue)),
            // TAY
            0xA8 => (self.with_y(self.a).zn(self.a), Ok(Flow::Continue)),
            // TSX
            0xBA => (self.with_x(self.sp).zn(self.sp), Ok(Flow::Continue)),
            // TXA
            0x8A => (self.with_a(self.x).zn(self.x), Ok(Flow::Continue)),
            // TXS
            0x9A => (self.with_sp(self.x), Ok(Flow::Continue)),
            // TYA
            0x98 => (self.with_a(self.y).zn(self.y), Ok(Flow::Continue)),
            // INX
            0xE8 => (self.with_x(wrap8(self.x + 1)).zn(wrap8(self.x + 1)), Ok(Flow::Continue)),
            // INY
            0xC8 => (self.with_y(wrap8(self.y + 1)).zn(wrap8(self.y + 1)), Ok(Flow::Continue)),
            // DEX
            0xCA => (self.with_x(wrap8(self.x - 1)).zn(wrap8(self.x - 1)), Ok(Flow::Continue)),
            // DEY
            0x88 => (self.with_y(wrap8(self.y - 1)).zn(wrap8(self.y - 1)), Ok(Flow::Continue)),
        }
    }

    /// One fetch-decode-execute step.
    pub open spec fn step(self) -> Outcome<Flow> {
        match self.read(self.pc) {
            (s, Ok(code)) => s.with_pc(wrap16(self.pc + 1)).execute(code),
            (s, Err(e)) => (s, Err(e)),
        }
    }

    /// Steps for as long as they continue, at most `n` of them.
    pub open spec fn run_for(self, n: nat) -> Outcome<Flow>
        decreases n,
    {
        if n == 0 {
            (self, Ok(Flow::Continue))
        } else {
            match self.step() {
                (s, Ok(Flow::Continue)) => s.run_for((n - 1) as nat),
                other => other,
            }
        }
    }
}

pub proof fn lemma_small_ram_address(addr: u16)
    requires
        addr < 0x0800,
    ensures
        addr & 0x07ff == addr,
{
    assert(addr & 0x07ff == addr) by (bit_vector)
        requires
            addr < 0x0800,
    ;
}

/// The whole stack page lies in RAM, so stack accesses cannot fail and have
/// no side effects.
pub proof fn lemma_stack_in_ram(s: CpuView, v: u8)
    requires
        s.bus.wf(),
    ensures
        s.bus.write(s.stack_top(), v) == (
        BusView { ram: s.bus.ram.update(s.stack_top() as int, v), ..s.bus },
        Ok::<(), BusError>(()),
        ),
        s.bus.read(s.stack_top()) == (s.bus, Ok::<u8, BusError>(s.bus.ram[s.stack_top() as int])),
{
    reveal(BusView::read);
    reveal(BusView::write);
    lemma_small_ram_address(s.stack_top());
}

impl CpuView {
    /// The 16-bit word stored little-endian at `addr` in RAM or program
    /// memory.
    pub open spec fn peek_u16(self, addr: u16) -> u16 {
        (self.bus.peek(wrap16(addr + 1)) as int * 256 + self.bus.peek(addr) as int) as u16
    }

    /// Registers after a reset: A, X and Y cleared, the power-up flags, and
    /// the program counter from the reset vector.
    pub open spec fn reset(self) -> CpuView {
        CpuView {
            a: 0,
            x: 0,
            y: 0,
            p: CpuFlags::power_up(),
            pc: self.peek_u16(RESET_VECTOR),
            ..self
        }
    }
}

impl CPU {
    pub fn new(bus: Bus) -> (r: CPU)
        ensures
            r@ == (CpuView {
                a: 0,
                x: 0,
                y: 0,
                sp: STACK_RESET,
                p: CpuFlags::power_up(),
                pc: 0,
                bus: bus@,
            }),
    {
        CPU {
            reg_a: 0,
            reg_x: 0,
            reg_y: 0,
            stack_ptr: STACK_RESET,
            status_reg: CpuFlags::from_bits(0b0010_0100),
            program_counter: 0,
            bus: bus,
        }
    }

    pub fn update_z_and_neg_flag(&mut self, val: u8)
        ensures
            final(self)@ == old(self)@.zn(val),
            final(self).status_reg.zero == (val == 0),
            final(self).status_reg.negative == (val & 0x80 != 0),
    {
        self.status_reg.zero = val == 0;
        self.status_reg.negative = val & 0b1000_0000 != 0;
    }

    pub fn read_mem(&mut self, addr: u16) -> (r: Result<u8, CpuError>)
        ensures
            (final(self)@, r) == old(self)@.read(addr),
    {
        match self.bus.read_mem(addr) {
            Ok(v) => Ok(v),
            Err(e) => Err(CpuError::Bus(e)),
        }
    }

    pub fn read_mem_u16(&mut self, addr: u16) -> (r: Result<u16, CpuError>)
        ensures
            (final(self)@, r) == old(self)@.read_u16(addr),
    {
        let lo = self.read_mem(addr)? as u16;
        let hi = self.read_mem(addr.wrapping_add(1))? as u16;
        Ok(hi * 256 + lo)
    }

    pub fn write_mem(&mut self, addr: u16, data: u8) -> (r: Result<(), CpuError>)
        ensures
            (final(self)@, r) == old(self)@.write(addr, data),
    {
        match self.bus.write_mem(addr, data) {
            Ok(_) => Ok(()),
            Err(e) => Err(CpuError::Bus(e)),
        }
    }

    /// Writes `data` little-endian at `addr` and the address after it.
    pub fn write_mem_u16(&mut self, addr: u16, data: u16) -> (r: Result<(), CpuError>)
        ensures
            (final(self)@, r) == (match old(self)@.write(addr, (data % 256) as u8) {
                (s, Ok(_)) => s.write(wrap16(addr + 1), (data / 256) as u8),
                (s, Err(e)) => (s, Err(e)),
            }),
    {
        let lo = (data % 256) as u8;
        let hi = (data / 256) as u8;
        self.write_mem(addr, lo)?;
        self.write_mem(addr.wrapping_add(1), hi)
    }

    fn read_zp_pointer(&mut self, ptr: u8) -> (r: Result<u16, CpuError>)
        ensures
            (final(self)@, r) == old(self)@.read_zp_pointer(ptr),
    {
        let lo = self.read_mem(ptr as u16)? as u16;
        let hi = self.read_mem(ptr.wrapping_add(1) as u16)? as u16;
        Ok(hi * 256 + lo)
    }

    /// Resolves the operand address of `mode` from the bytes at the program
    /// counter; the program counter itself does not move.
    pub fn get_address(&mut self, mode: &AddressingMode) -> (r: Result<u16, CpuError>)
        ensures
            (final(self)@, r) == old(self)@.operand_address(*mode),
    {
        match mode {
            AddressingMode::Immediate => Ok(self.program_counter),
            AddressingMode::ZeroPage => match self.read_mem(self.program_counter) {
                Ok(b) => Ok(b as u16),
                Err(e) => Err(e),
            },
            AddressingMode::ZeroPageX => match self.read_mem(self.program_counter) {
                Ok(b) => Ok(b.wrapping_add(self.reg_x) as u16),
                Err(e) => Err(e),
            },
            AddressingMode::ZeroPageY => match self.read_mem(self.program_counter) {
                Ok(b) => Ok(b.wrapping_add(self.reg_y) as u16),
                Err(e) => Err(e),
            },
            AddressingMode::Absolute => self.read_mem_u16(self.program_counter),
            AddressingMode::AbsoluteX => match self.read_mem_u16(self.program_counter) {
                Ok(w) => Ok(w.wrapping_add(self.reg_x as u16)),
                Err(e) => Err(e),
            },
            AddressingMode::AbsoluteY => match self.read_mem_u16(self.program_counter) {
                Ok(w) => Ok(w.wrapping_add(self.reg_y as u16)),
                Err(e) => Err(e),
            },
            AddressingMode::IndirectX => match self.read_mem(self.program_counter) {
                Ok(b) => self.read_zp_pointer(b.wrapping_add(self.reg_x)),
                Err(e) => Err(e),
            },
            AddressingMode::IndirectY => match self.read_mem(self.program_counter) {
                Ok(b) => match self.read_zp_pointer(b) {
                    Ok(base) => Ok(base.wrapping_add(self.reg_y as u16)),
                    Err(e) => Err(e),
                },
                Err(e) => Err(e),
            },
            AddressingMode::NoneAddressing => Err(CpuError::NoneAddressing),
        }
    }

    /// Resolves the operand of `mode` and reads it.
    fn load(&mut self, mode: &AddressingMode) -> (r: Result<u8, CpuError>)
        ensures
            (final(self)@, r) == old(self)@.load(*mode),
    {
        let addr = self.get_address(mode)?;
        self.read_mem(addr)
    }

    pub fn push_stack(&mut self, data: u8)
        ensures
            final(self)@ == old(self)@.push(data),
    {
        proof {
            self.bus.lemma_view_wf();
            lemma_stack_in_ram(self@, data);
        }
        let _stored = self.write_mem(STACK + self.stack_ptr as u16, data);
        self.stack_ptr = self.stack_ptr.wrapping_sub(1);
    }

    pub fn push_stack_u16(&mut self, data: u16)
        ensures
            final(self)@ == old(self)@.push_u16(data),
    {
        let hi = (data / 256) as u8;
        let lo = (data % 256) as u8;
        self.push_stack(hi);
        self.push_stack(lo);
    }

    pub fn pop_stack(&mut self) -> (r: u8)
        ensures
            (final(self)@, r) == old(self)@.pop(),
    {
        self.stack_ptr = self.stack_ptr.wrapping_add(1);
        proof {
            lemma_small_ram_address((STACK + self.stack_ptr) as u16);
        }
        self.bus.peek(STACK + self.stack_ptr as u16)
    }

    pub fn pop_stack_u16(&mut self) -> (r: u16)
        ensures
            (final(self)@, r) == old(self)@.pop_u16(),
    {
        let lo = self.pop_stack() as u16;
        let hi = self.pop_stack() as u16;
        hi * 256 + lo
    }

    fn tax(&mut self)
        ensures
            final(self)@ == old(self)@.with_x(old(self).reg_a).zn(old(self).reg_a),
    {
        self.reg_x = self.reg_a;
        self.update_z_and_neg_flag(self.reg_x);
    }

    fn inx(&mut self)
        ensures
            final(self)@ == old(self)@.with_x(wrap8(old(self).reg_x + 1)).zn(
                wrap8(old(self).reg_x + 1),
            ),
    {
        self.reg_x = self.reg_x.wrapping_add(1);
        self.update_z_and_neg_flag(self.reg_x);
    }

    fn iny(&mut self)
        ensures
            final(self)@ == old(self)@.with_y(wrap8(old(self).reg_y + 1)).zn(
                wrap8(old(self).reg_y + 1),
            ),
    {
        self.reg_y = self.reg_y.wrapping_add(1);
        self.update_z_and_neg_flag(self.reg_y);
    }

    fn dex(&mut self)
        ensures
            final(self)@ == old(self)@.with_x(wrap8(old(self).reg_x - 1)).zn(
                wrap8(old(self).reg_x - 1),
            ),
    {
        self.reg_x = self.reg_x.wrapping_sub(1);
        self.update_z_and_neg_flag(self.reg_x);
    }

    fn dey(&mut self)
        ensures
            final(self)@ == old(self)@.with_y(wrap8(old(self).reg_y - 1)).zn(
                wrap8(old(self).reg_y - 1),
            ),
    {
        self.reg_y = self.reg_y.wrapping_sub(1);
        self.update_z_and_neg_flag(self.reg_y);
    }

    fn lda(&mut self, mode: &AddressingMode) -> (r: Result<(), CpuError>)
        ensures
            (final(self)@, r) == old(self)@.lda(*mode),
    {
        proof {
            reveal(CpuView::lda);
        }
        let v = self.load(mode)?;
        self.reg_a = v;
        self.update_z_and_neg_flag(v);
        Ok(())
    }

    fn ldx(&mut self, mode: &AddressingMode) -> (r: Result<(), CpuError>)
        ensures
            (final(self)@, r) == old(self)@.ldx(*mode),
    {
        proof {
            reveal(CpuView::ldx);
        }
        let v = self.load(mode)?;
        self.reg_x = v;
        self.update_z_and_neg_flag(v);
        Ok(())
    }

    fn ldy(&mut self, mode: &AddressingMode) -> (r: Result<(), CpuError>)
        ensures
            (final(self)@, r) == old(self)@.ldy(*mode),
    {
        proof {
            reveal(CpuView::ldy);
        }
        let v = self.load(mode)?;
        self.reg_y = v;
        self.update_z_and_neg_flag(v);
        Ok(())
    }

    fn and(&mut self, mode: &AddressingMode) -> (r: Result<(), CpuError>)
        ensures
            (final(self)@, r) == old(self)@.and(*mode),
    {
        proof {
            reveal(CpuView::and);
        }
        let v = self.load(mode)?;
        self.reg_a = self.reg_a & v;
        self.update_z_and_neg_flag(self.reg_a);
        Ok(())
    }

    fn eor(&mut self, mode: &AddressingMode) -> (r: Result<(), CpuError>)
        ensures
            (final(self)@, r) == old(self)@.eor(*mode),
    {
        proof {
            reveal(CpuView::eor);
        }
        let v = self.load(mode)?;
        self.reg_a = self.reg_a ^ v;
        self.update_z_and_neg_flag(self.reg_a);
        Ok(())
    }

    fn ora(&mut self, mode: &AddressingMode) -> (r: Result<(), CpuError>)
        ensures
            (final(self)@, r) == old(self)@.ora(*mode),
    {
        proof {
            reveal(CpuView::ora);
        }
        let v = self.load(mode)?;
        self.reg_a = self.reg_a | v;
        self.update_z_and_neg_flag(self.reg_a);
        Ok(())
    }

    /// Adds `m` and the carry to the accumulator, setting Carry, Overflow,
    /// Zero and Negative.
    pub fn add_to_a(&mut self, m: u8)
        ensures
            final(self)@ == old(self)@.add_to_a(m),
    {
        let sum: u16 = m as u16 + self.reg_a as u16 + if self.status_reg.carry {
            1
        } else {
            0
        };
        let r: u8 = if sum > 0xff {
            (sum - 0x100) as u8
        } else {
            sum as u8
        };
        self.update_z_and_neg_flag(r);
        self.status_reg.overflow = (m ^ r) & (self.reg_a ^ r) & 0x80 != 0;
        self.status_reg.carry = sum > 0xff;
        self.reg_a = r;
    }

    fn adc(&mut self, mode: &AddressingMode) -> (r: Result<(), CpuError>)
        ensures
            (final(self)@, r) == old(self)@.adc(*mode),
    {
        proof {
            reveal(CpuView::adc);
        }
        let v = self.load(mode)?;
        self.add_to_a(v);
        Ok(())
    }

    fn sbc(&mut self, mode: &AddressingMode) -> (r: Result<(), CpuError>)
        ensures
            (final(self)@, r) == old(self)@.sbc(*mode),
    {
        proof {
            reveal(CpuView::sbc);
        }
        let v = self.load(mode)?;
        self.add_to_a(!v);
        Ok(())
    }

    fn compare(&mut self, reg: u8, v: u8)
        ensures
            final(self)@ == old(self)@.compare(reg, v),
    {
        self.update_z_and_neg_flag(reg.wrapping_sub(v));
        self.status_reg.carry = reg >= v;
    }

    fn cmp(&mut self, mode: &AddressingMode) -> (r: Result<(), CpuError>)
        ensures
            (final(self)@, r) == old(self)@.cmp(*mode),
    {
        proof {
            reveal(CpuView::cmp);
        }
        let v = self.load(mode)?;
        self.compare(self.reg_a, v);
        Ok(())
    }

    fn cpx(&mut self, mode: &AddressingMode) -> (r: Result<(), CpuError>)
        ensures
            (final(self)@, r) == old(self)@.cpx(*mode),
    {
        proof {
            reveal(CpuView::cpx);
        }
        let v = self.load(mode)?;
        self.compare(self.reg_x, v);
        Ok(())
    }

    fn cpy(&mut self, mode: &AddressingMode) -> (r: Result<(), CpuError>)
        ensures
            (final(self)@, r) == old(self)@.cpy(*mode),
    {
        proof {
            reveal(CpuView::cpy);
        }
        let v = self.load(mode)?;
        self.compare(self.reg_y, v);
        Ok(())
    }

    fn bit(&mut self, mode: &AddressingMode) -> (r: Result<(), CpuError>)
        ensures
            (final(self)@, r) == old(self)@.bit(*mode),
    {
        proof {
            reveal(CpuView::bit);
        }
        let data = self.load(mode)?;
        self.status_reg.zero = self.reg_a & data == 0;
        self.status_reg.negative = data & 0b1000_0000 != 0;
        self.status_reg.overflow = data & 0b0100_0000 != 0;
        Ok(())
    }

    fn store(&mut self, mode: &AddressingMode, v: u8) -> (r: Result<(), CpuError>)
        ensures
            (final(self)@, r) == old(self)@.store(*mode, v),
    {
        let addr = self.get_address(mode)?;
        self.write_mem(addr, v)
    }

    fn sta(&mut self, mode: &AddressingMode) -> (r: Result<(), CpuError>)
        ensures
            (final(self)@, r) == old(self)@.sta(*mode),
    {
        proof {
            reveal(CpuView::sta);
        }
        self.store(mode, self.reg_a)
    }

    fn stx(&mut self, mode: &AddressingMode) -> (r: Result<(), CpuError>)
        ensures
            (final(self)@, r) == old(self)@.stx(*mode),
    {
        proof {
            reveal(CpuView::stx);
        }
        self.store(mode, self.reg_x)
    }

    fn sty(&mut self, mode: &AddressingMode) -> (r: Result<(), CpuError>)
        ensures
            (final(self)@, r) == old(self)@.sty(*mode),
    {
        proof {
            reveal(CpuView::sty);
        }
        self.store(mode, self.reg_y)
    }

    fn inc(&mut self, mode: &AddressingMode) -> (r: Result<(), CpuError>)
        ensures
            (final(self)@, r) == old(self)@.inc(*mode),
    {
        proof {
            reveal(CpuView::inc);
        }
        let addr = self.get_address(mode)?;
        let data = self.read_mem(addr)?.wrapping_add(1);
        self.write_mem(addr, data)?;
        self.update_z_and_neg_flag(data);
        Ok(())
    }

    fn dec(&mut self, mode: &AddressingMode) -> (r: Result<(), CpuError>)
        ensures
            (final(self)@, r) == old(self)@.dec(*mode),
    {
        proof {
            reveal(CpuView::dec);
        }
        let addr = self.get_address(mode)?;
        let data = self.read_mem(addr)?.wrapping_sub(1);
        self.write_mem(addr, data)?;
        self.update_z_and_neg_flag(data);
        Ok(())
    }

    fn asl(&mut self, mode: &AddressingMode) -> (r: Result<(), CpuError>)
        ensures
            (final(self)@, r) == old(self)@.asl(*mode),
    {
        proof {
            reveal(CpuView::asl);
        }
        let addr = self.get_address(mode)?;
        let data = self.read_mem(addr)?;
        self.write_mem(addr, data << 1)?;
        self.status_reg.carry = data & 0b1000_0000 != 0;
        self.update_z_and_neg_flag(data << 1);
        Ok(())
    }

    fn lsr(&mut self, mode: &AddressingMode) -> (r: Result<(), CpuError>)
        ensures
            (final(self)@, r) == old(self)@.lsr(*mode),
    {
        proof {
            reveal(CpuView::lsr);
        }
        let addr = self.get_address(mode)?;
        let data = self.read_mem(addr)?;
        self.write_mem(addr, data >> 1)?;
        self.status_reg.carry = data & 0b0000_0001 != 0;
        self.update_z_and_neg_flag(data >> 1);
        Ok(())
    }

    fn rol(&mut self, mode: &AddressingMode) -> (r: Result<(), CpuError>)
        ensures
            (final(self)@, r) == old(self)@.rol(*mode),
    {
        proof {
            reveal(CpuView::rol);
        }
        let c = self.status_reg.carry;
        let addr = self.get_address(mode)?;
        let data = self.read_mem(addr)?;
        let d = (data << 1) | if c {
            1
        } else {
            0
        };
        self.write_mem(addr, d)?;
        self.status_reg.carry = data & 0b1000_0000 != 0;
        self.update_z_and_neg_flag(d);
        Ok(())
    }

    fn ror(&mut self, mode: &AddressingMode) -> (r: Result<(), CpuError>)
        ensures
            (final(self)@, r) == old(self)@.ror(*mode),
    {
        proof {
            reveal(CpuView::ror);
        }
        let c = self.status_reg.carry;
        let addr = self.get_address(mode)?;
        let data = self.read_mem(addr)?;
        let d = (data >> 1) | if c {
            0b1000_0000
        } else {
            0
        };
        self.write_mem(addr, d)?;
        self.status_reg.carry = data & 0b0000_0001 != 0;
        self.update_z_and_neg_flag(d);
        Ok(())
    }

    fn asl_a(&mut self)
        ensures
            final(self)@ == old(self)@.asl_a(),
    {
        proof {
            reveal(CpuView::asl_a);
        }
        self.status_reg.carry = self.reg_a & 0b1000_0000 != 0;
        self.reg_a = self.reg_a << 1;
        self.update_z_and_neg_flag(self.reg_a);
    }

    fn lsr_a(&mut self)
        ensures
            final(self)@ == old(self)@.lsr_a(),
    {
        proof {
            reveal(CpuView::lsr_a);
        }
        self.status_reg.carry = self.reg_a & 0b0000_0001 != 0;
        self.reg_a = self.reg_a >> 1;
        self.update_z_and_neg_flag(self.reg_a);
    }

    fn rol_a(&mut self)
        ensures
            final(self)@ == old(self)@.rol_a(),
    {
        proof {
            reveal(CpuView::rol_a);
        }
        let c = self.status_reg.carry;
        self.status_reg.carry = self.reg_a & 0b1000_0000 != 0;
        self.reg_a = (self.reg_a << 1) | if c {
            1
        } else {
            0
        };
        self.update_z_and_neg_flag(self.reg_a);
    }

    fn ror_a(&mut self)
        ensures
            final(self)@ == old(self)@.ror_a(),
    {
        proof {
            reveal(CpuView::ror_a);
        }
        let c = self.status_reg.carry;
        self.status_reg.carry = self.reg_a & 0b0000_0001 != 0;
        self.reg_a = (self.reg_a >> 1) | if c {
            0b1000_0000
        } else {
            0
        };
        self.update_z_and_neg_flag(self.reg_a);
    }

    /// Relative branch on `cond` at the operand byte.
    fn branch(&mut self, cond: bool) -> (r: Result<(), CpuError>)
        ensures
            (final(self)@, r) == old(self)@.branch(cond),
    {
        proof {
            reveal(CpuView::branch);
        }
        if cond {
            let off = self.read_mem(self.program_counter)?;
            let next = self.program_counter.wrapping_add(1).wrapping_add(off as u16);
            self.program_counter = if off >= 0x80 {
                next.wrapping_sub(0x100)
            } else {
                next
            };
        } else {
            self.program_counter = self.program_counter.wrapping_add(1);
        }
        Ok(())
    }

    fn bcc(&mut self) -> (r: Result<(), CpuError>)
        ensures
            (final(self)@, r) == old(self)@.branch(!old(self).status_reg.carry),
    {
        self.branch(!self.status_reg.carry)
    }

    fn bcs(&mut self) -> (r: Result<(), CpuError>)
        ensures
            (final(self)@, r) == old(self)@.branch(old(self).status_reg.carry),
    {
        self.branch(self.status_reg.carry)
    }

    fn beq(&mut self) -> (r: Result<(), CpuError>)
        ensures
            (final(self)@, r) == old(self)@.branch(old(self).status_reg.zero),
    {
        self.branch(self.status_reg.zero)
    }

    fn bne(&mut self) -> (r: Result<(), CpuError>)
        ensures
            (final(self)@, r) == old(self)@.branch(!old(self).status_reg.zero),
    {
        self.branch(!self.status_reg.zero)
    }

    fn bmi(&mut self) -> (r: Result<(), CpuError>)
        ensures
            (final(self)@, r) == old(self)@.branch(old(self).status_reg.negative),
    {
        self.branch(self.status_reg.negative)
    }

    fn bpl(&mut self) -> (r: Result<(), CpuError>)
        ensures
            (final(self)@, r) == old(self)@.branch(!old(self).status_reg.negative),
    {
        self.branch(!self.status_reg.negative)
    }

    fn bvc(&mut self) -> (r: Result<(), CpuError>)
        ensures
            (final(self)@, r) == old(self)@.branch(!old(self).status_reg.overflow),
    {
        self.branch(!self.status_reg.overflow)
    }

    fn bvs(&mut self) -> (r: Result<(), CpuError>)
        ensures
            (final(self)@, r) == old(self)@.branch(old(self).status_reg.overflow),
    {
        self.branch(self.status_reg.overflow)
    }

    fn jsr(&mut self) -> (r: Result<(), CpuError>)
        ensures
            (final(self)@, r) == old(self)@.jsr(),
    {
        proof {
            reveal(CpuView::jsr);
        }
        let pc = self.program_counter;
        self.push_stack_u16(pc.wrapping_add(1));
        self.program_counter = self.read_mem_u16(pc)?;
        Ok(())
    }

    fn rts(&mut self)
        ensures
            final(self)@ == old(self)@.rts(),
    {
        proof {
            reveal(CpuView::rts);
        }
        self.program_counter = self.pop_stack_u16().wrapping_add(1);
    }

    fn rti(&mut self)
        ensures
            final(self)@ == old(self)@.rti(),
    {
        proof {
            reveal(CpuView::rti);
            reveal(CpuView::plp);
        }
        self.plp();
        self.program_counter = self.pop_stack_u16();
    }

    fn jmp_absolute(&mut self) -> (r: Result<(), CpuError>)
        ensures
            (final(self)@, r) == old(self)@.jmp_absolute(),
    {
        proof {
            reveal(CpuView::jmp_absolute);
        }
        self.program_counter = self.read_mem_u16(self.program_counter)?;
        Ok(())
    }

    fn jmp_indirect(&mut self) -> (r: Result<(), CpuError>)
        ensures
            (final(self)@, r) == old(self)@.jmp_indirect(),
    {
        proof {
            reveal(CpuView::jmp_indirect);
        }
        let addr = self.read_mem_u16(self.program_counter)?;
        let target = if addr & 0x00FF == 0x00FF {
            let lo = self.read_mem(addr)?;
            let hi = self.read_mem(addr & 0xFF00)?;
            (hi as u16) * 256 + (lo as u16)
        } else {
            self.read_mem_u16(addr)?
        };
        self.program_counter = target;
        Ok(())
    }

    fn php(&mut self)
        ensures
            final(self)@ == old(self)@.php(),
    {
        proof {
            reveal(CpuView::php);
        }
        let mut f = self.status_reg;
        f.break_flag = true;
        f.break2 = true;
        self.push_stack(f.bits());
    }

    fn plp(&mut self)
        ensures
            final(self)@ == old(self)@.plp(),
    {
        proof {
            reveal(CpuView::plp);
        }
        let b = self.pop_stack();
        let mut f = CpuFlags::from_bits(b);
        f.break_flag = false;
        f.break2 = true;
        self.status_reg = f;
    }

    fn pla(&mut self)
        ensures
            final(self)@ == old(self)@.pla(),
    {
        proof {
            reveal(CpuView::pla);
        }
        self.reg_a = self.pop_stack();
        self.update_z_and_neg_flag(self.reg_a);
    }

    // Undocumented instructions.

    fn aac(&mut self) -> (r: Result<(), CpuError>)
        ensures
            (final(self)@, r) == old(self)@.aac(),
    {
        proof {
            reveal(CpuView::aac);
        }
        let data = self.read_mem(self.program_counter)?;
        self.reg_a = self.reg_a & data;
        self.update_z_and_neg_flag(self.reg_a);
        self.status_reg.carry = self.reg_a & 0b1000_0000 != 0;
        Ok(())
    }

    fn aax(&mut self, mode: &AddressingMode) -> (r: Result<(), CpuError>)
        ensures
            (final(self)@, r) == old(self)@.aax(*mode),
    {
        proof {
            reveal(CpuView::aax);
        }
        self.store(mode, self.reg_x & self.reg_a)
    }

    fn arr(&mut self) -> (r: Result<(), CpuError>)
        ensures
            (final(self)@, r) == old(self)@.arr(),
    {
        proof {
            reveal(CpuView::arr);
        }
        let data = self.read_mem(self.program_counter)?;
        let c = self.status_reg.carry;
        let r = ((self.reg_a & data) >> 1) | if c {
            0b1000_0000
        } else {
            0
        };
        self.status_reg.carry = r & 0b0100_0000 != 0;
        self.status_reg.overflow = (r & 0b0100_0000 != 0) != (r & 0b0010_0000 != 0);
        self.update_z_and_neg_flag(r);
        self.reg_a = r;
        Ok(())
    }

    fn asr(&mut self) -> (r: Result<(), CpuError>)
        ensures
            (final(self)@, r) == old(self)@.asr(),
    {
        proof {
            reveal(CpuView::asr);
        }
        let data = self.read_mem(self.program_counter)?;
        self.reg_a = self.reg_a & data;
        self.status_reg.carry = self.reg_a & 1 != 0;
        self.reg_a = self.reg_a >> 1;
        self.update_z_and_neg_flag(self.reg_a);
        Ok(())
    }

    fn atx(&mut self) -> (r: Result<(), CpuError>)
        ensures
            (final(self)@, r) == old(self)@.atx(),
    {
        proof {
            reveal(CpuView::atx);
        }
        let data = self.read_mem(self.program_counter)?;
        self.reg_a = self.reg_a & data;
        self.reg_x = self.reg_a;
        self.update_z_and_neg_flag(self.reg_a);
        Ok(())
    }

    fn axa(&mut self, mode: &AddressingMode) -> (r: Result<(), CpuError>)
        ensures
            (final(self)@, r) == old(self)@.axa(*mode),
    {
        proof {
            reveal(CpuView::axa);
        }
        self.store(mode, self.reg_a & self.reg_x & 0b0000_0111)
    }

    fn axs(&mut self) -> (r: Result<(), CpuError>)
        ensures
            (final(self)@, r) == old(self)@.axs(),
    {
        proof {
            reveal(CpuView::axs);
        }
        let data = self.read_mem(self.program_counter)?;
        let t = self.reg_x & self.reg_a;
        self.compare(t, data);
        self.reg_x = t.wrapping_sub(data);
        Ok(())
    }

    fn dcp(&mut self, mode: &AddressingMode) -> (r: Result<(), CpuError>)
        ensures
            (final(self)@, r) == old(self)@.dcp(*mode),
    {
        proof {
            reveal(CpuView::dcp);
        }
        let addr = self.get_address(mode)?;
        let data = self.read_mem(addr)?.wrapping_sub(1);
        self.write_mem(addr, data)?;
        self.status_reg.carry = data <= self.reg_a;
        self.update_z_and_neg_flag(self.reg_a.wrapping_sub(data));
        Ok(())
    }

    fn dop(&mut self, mode: &AddressingMode) -> (r: Result<(), CpuError>)
        ensures
            (final(self)@, r) == old(self)@.dop(*mode),
    {
        proof {
            reveal(CpuView::dop);
        }
        let _data = self.load(mode)?;
        Ok(())
    }

    fn isc(&mut self, mode: &AddressingMode) -> (r: Result<(), CpuError>)
        ensures
            (final(self)@, r) == old(self)@.isc(*mode),
    {
        proof {
            reveal(CpuView::isc);
        }
        self.inc(mode)?;
        self.sbc(mode)
    }

    fn lar(&mut self, mode: &AddressingMode) -> (r: Result<(), CpuError>)
        ensures
            (final(self)@, r) == old(self)@.lar(*mode),
    {
        proof {
            reveal(CpuView::lar);
        }
        let r = self.load(mode)? & self.stack_ptr;
        self.reg_a = r;
        self.reg_x = r;
        self.stack_ptr = r;
        self.update_z_and_neg_flag(r);
        Ok(())
    }

    fn lax(&mut self, mode: &AddressingMode) -> (r: Result<(), CpuError>)
        ensures
            (final(self)@, r) == old(self)@.lax(*mode),
    {
        proof {
            reveal(CpuView::lax);
        }
        let v = self.load(mode)?;
        self.reg_a = v;
        self.reg_x = v;
        self.update_z_and_neg_flag(v);
        Ok(())
    }

    fn rla(&mut self, mode: &AddressingMode) -> (r: Result<(), CpuError>)
        ensures
            (final(self)@, r) == old(self)@.rla(*mode),
    {
        proof {
            reveal(CpuView::rla);
        }
        let c = self.status_reg.carry;
        let addr = self.get_address(mode)?;
        let data = self.read_mem(addr)?;
        let d = (data << 1) | if c {
            1
        } else {
            0
        };
        self.write_mem(addr, d)?;
        self.reg_a = self.reg_a & d;
        self.status_reg.carry = data & 0b1000_0000 != 0;
        self.update_z_and_neg_flag(self.reg_a);
        Ok(())
    }

    fn rra(&mut self, mode: &AddressingMode) -> (r: Result<(), CpuError>)
        ensures
            (final(self)@, r) == old(self)@.rra(*mode),
    {
        proof {
            reveal(CpuView::rra);
        }
        let c = self.status_reg.carry;
        let addr = self.get_address(mode)?;
        let data = self.read_mem(addr)?;
        let d = (data >> 1) | if c {
            0b1000_0000
        } else {
            0
        };
        self.write_mem(addr, d)?;
        self.status_reg.carry = data & 1 != 0;
        self.add_to_a(d);
        Ok(())
    }

    fn slo(&mut self, mode: &AddressingMode) -> (r: Result<(), CpuError>)
        ensures
            (final(self)@, r) == old(self)@.slo(*mode),
    {
        proof {
            reveal(CpuView::slo);
        }
        let addr = self.get_address(mode)?;
        let data = self.read_mem(addr)?;
        self.write_mem(addr, data << 1)?;
        self.status_reg.carry = data & 0b1000_0000 != 0;
        self.reg_a = self.reg_a | (data << 1);
        self.update_z_and_neg_flag(self.reg_a);
        Ok(())
    }

    fn sre(&mut self, mode: &AddressingMode) -> (r: Result<(), CpuError>)
        ensures
            (final(self)@, r) == old(self)@.sre(*mode),
    {
        proof {
            reveal(CpuView::sre);
        }
        let addr = self.get_address(mode)?;
        let data = self.read_mem(addr)?;
        self.write_mem(addr, data >> 1)?;
        self.status_reg.carry = data & 0b0000_0001 != 0;
        self.reg_a = self.reg_a ^ (data >> 1);
        self.update_z_and_neg_flag(self.reg_a);
        Ok(())
    }

    fn high_plus_one(addr: u16) -> (r: u8)
        ensures
            r == CpuView::high_plus_one(addr),
    {
        ((addr / 256) as u8).wrapping_add(1)
    }

    fn sxa(&mut self) -> (r: Result<(), CpuError>)
        ensures
            (final(self)@, r) == old(self)@.sxa(),
    {
        proof {
            reveal(CpuView::sxa);
        }
        let addr = self.get_address(&AddressingMode::AbsoluteY)?;
        let data = Self::high_plus_one(addr) & self.reg_x;
        self.write_mem(addr, data)
    }

    fn sya(&mut self) -> (r: Result<(), CpuError>)
        ensures
            (final(self)@, r) == old(self)@.sya(),
    {
        proof {
            reveal(CpuView::sya);
        }
        let addr = self.get_address(&AddressingMode::AbsoluteX)?;
        let data = Self::high_plus_one(addr) & self.reg_y;
        self.write_mem(addr, data)
    }

    fn xaa(&mut self) -> (r: Result<(), CpuError>)
        ensures
            (final(self)@, r) == old(self)@.xaa(),
    {
        proof {
            reveal(CpuView::xaa);
        }
        let data = self.read_mem(self.program_counter)?;
        self.reg_a = self.reg_x & data;
        self.update_z_and_neg_flag(self.reg_a);
        Ok(())
    }

    fn xas(&mut self) -> (r: Result<(), CpuError>)
        ensures
            (final(self)@, r) == old(self)@.xas(),
    {
        proof {
            reveal(CpuView::xas);
        }
        let addr = self.get_address(&AddressingMode::AbsoluteY)?;
        self.stack_ptr = self.reg_a & self.reg_x;
        let data = Self::high_plus_one(addr) & self.stack_ptr;
        self.write_mem(addr, data)
    }

    fn tay(&mut self)
        ensures
            final(self)@ == old(self)@.with_y(old(self).reg_a).zn(old(self).reg_a),
    {
        self.reg_y = self.reg_a;
        self.update_z_and_neg_flag(self.reg_y);
    }

    fn tsx(&mut self)
        ensures
            final(self)@ == old(self)@.with_x(old(self).stack_ptr).zn(old(self).stack_ptr),
    {
        self.reg_x = self.stack_ptr;
        self.update_z_and_neg_flag(self.reg_x);
    }

    fn txa(&mut self)
        ensures
            final(self)@ == old(self)@.with_a(old(self).reg_x).zn(old(self).reg_x),
    {
        self.reg_a = self.reg_x;
        self.update_z_and_neg_flag(self.reg_a);
    }

    fn tya(&mut self)
        ensures
            final(self)@ == old(self)@.with_a(old(self).reg_y).zn(old(self).reg_y),
    {
        self.reg_a = self.reg_y;
        self.update_z_and_neg_flag(self.reg_a);
    }

    fn advance(&mut self, r: Result<(), CpuError>, bytes: u8) -> (res: Result<Flow, CpuError>)
        ensures
            (final(self)@, res) == advanced((old(self)@, r), bytes),
    {
        match r {
            Ok(_) => {
                self.program_counter = self.program_counter.wrapping_add(
                    (bytes as u16).wrapping_sub(1),
                );
                Ok(Flow::Continue)
            },
            Err(e) => Err(e),
        }
    }

    fn continued(r: Result<(), CpuError>) -> (res: Result<Flow, CpuError>)
        ensures
            res == (match r {
                Ok(_) => Ok::<Flow, CpuError>(Flow::Continue),
                Err(e) => Err(e),
            }),
    {
        match r {
            Ok(_) => Ok(Flow::Continue),
            Err(e) => Err(e),
        }
    }

    /// Executes opcode `code`, the program counter standing on the byte after
    /// it.
    fn execute(&mut self, code: u8) -> (r: Result<Flow, CpuError>)
        ensures
            (final(self)@, r) == old(self)@.execute(code),
    {
        let op = opcodes::lookup(code);
        match code / 32 {
            0 => self.execute_0(code, op),
            1 => self.execute_1(code, op),
            2 => self.execute_2(code, op),
            3 => self.execute_3(code, op),
            4 => self.execute_4(code, op),
            5 => self.execute_5(code, op),
            6 => self.execute_6(code, op),
            _ => self.execute_7(code, op),
        }
    }

    /// Opcodes 0x00 - 0x1F.
    #[verifier::rlimit(40)]
    fn execute_0(&mut self, code: u8, op: OpCode) -> (r: Result<Flow, CpuError>)
        requires
            code / 32 == 0,
            op == opcodes::opcode_spec(code),
        ensures
            (final(self)@, r) == old(self)@.execute(code),
    {
        proof {
            reveal(CpuView::execute);
        }
        match code {
            // BRK
            0x00 => {
                self.status_reg.break_flag = true;
                Ok(Flow::Break)
            },
            // KIL
            0x02 | 0x12 => Ok(Flow::Halt),
            // NOP
            0x1A => Ok(Flow::Continue),
            // ORA
            0x01 | 0x05 | 0x09 | 0x0D | 0x11 | 0x15 | 0x19 | 0x1D => {
                let r = self.ora(&op.addr_mode);
                self.advance(r, op.bytes)
            },
            // SLO
            0x03 | 0x07 | 0x0F | 0x13 | 0x17 | 0x1B | 0x1F => {
                let r = self.slo(&op.addr_mode);
                self.advance(r, op.bytes)
            },
            // DOP, TOP
            0x04 | 0x0C | 0x14 | 0x1C => {
                let r = self.dop(&op.addr_mode);
                self.advance(r, op.bytes)
            },
            // ASL A
            0x0A => {
                self.asl_a();
                Ok(Flow::Continue)
            },
            // ASL
            0x06 | 0x0E | 0x16 | 0x1E => {
                let r = self.asl(&op.addr_mode);
                self.advance(r, op.bytes)
            },
            // AAC
            0x0B => {
                let r = self.aac();
                self.advance(r, op.bytes)
            },
            // CLC
            0x18 => {
                self.status_reg.carry = false;
                Ok(Flow::Continue)
            },
            // BPL
            0x10 => {
                let r = self.bpl();
                Self::continued(r)
            },
            // PHP
            0x08 => {
                self.php();
                Ok(Flow::Continue)
            },
            // excluded by the precondition
            _ => Ok(Flow::Halt),
        }
    }

    /// Opcodes 0x20 - 0x3F.
    fn execute_1(&mut self, code: u8, op: OpCode) -> (r: Result<Flow, CpuError>)
        requires
            code / 32 == 1,
            op == opcodes::opcode_spec(code),
        ensures
            (final(self)@, r) == old(self)@.execute(code),
    {
        proof {
            reveal(CpuView::execute);
        }
        match code {
            // KIL
            0x22 | 0x32 => Ok(Flow::Halt),
            // NOP
            0x3A => Ok(Flow::Continue),
            // AND
            0x21 | 0x25 | 0x29 | 0x2D | 0x31 | 0x35 | 0x39 | 0x3D => {
                let r = self.and(&op.addr_mode);
                self.advance(r, op.bytes)
            },
            // BIT
            0x24 | 0x2C => {
                let r = self.bit(&op.addr_mode);
                self.advance(r, op.bytes)
            },
            // RLA
            0x23 | 0x27 | 0x2F | 0x33 | 0x37 | 0x3B | 0x3F => {
                let r = self.rla(&op.addr_mode);
                self.advance(r, op.bytes)
            },
            // DOP, TOP
            0x34 | 0x3C => {
                let r = self.dop(&op.addr_mode);
                self.advance(r, op.bytes)
            },
            // ROL A
            0x2A => {
                self.rol_a();
                Ok(Flow::Continue)
            },
            // ROL
            0x26 | 0x2E | 0x36 | 0x3E => {
                let r = self.rol(&op.addr_mode);
                self.advance(r, op.bytes)
            },
            // AAC
            0x2B => {
                let r = self.aac();
                self.advance(r, op.bytes)
            },
            // SEC
            0x38 => {
                self.status_reg.carry = true;
                Ok(Flow::Continue)
            },
            // BMI
            0x30 => {
                let r = self.bmi();
                Self::continued(r)
            },
            // JSR
            0x20 => {
                let r = self.jsr();
                Self::continued(r)
            },
            // PLP
            0x28 => {
                self.plp();
                Ok(Flow::Continue)
            },
            // excluded by the precondition
            _ => Ok(Flow::Halt),
        }
    }

    /// Opcodes 0x40 - 0x5F.
    fn execute_2(&mut self, code: u8, op: OpCode) -> (r: Result<Flow, CpuError>)
        requires
            code / 32 == 2,
            op == opcodes::opcode_spec(code),
        ensures
            (final(self)@, r) == old(self)@.execute(code),
    {
        proof {
            reveal(CpuView::execute);
        }
        match code {
            // KIL
            0x42 | 0x52 => Ok(Flow::Halt),
            // NOP
            0x5A => Ok(Flow::Continue),
            // EOR
            0x41 | 0x45 | 0x49 | 0x4D | 0x51 | 0x55 | 0x59 | 0x5D => {
                let r = self.eor(&op.addr_mode);
                self.advance(r, op.bytes)
            },
            // SRE
            0x43 | 0x47 | 0x4F | 0x53 | 0x57 | 0x5B | 0x5F => {
                let r = self.sre(&op.addr_mode);
                self.advance(r, op.bytes)
            },
            // DOP, TOP
            0x44 | 0x54 | 0x5C => {
                let r = self.dop(&op.addr_mode);
                self.advance(r, op.bytes)
            },
            // LSR A
            0x4A => {
                self.lsr_a();
                Ok(Flow::Continue)
            },
            // LSR
            0x46 | 0x4E | 0x56 | 0x5E => {
                let r = self.lsr(&op.addr_mode);
                self.advance(r, op.bytes)
            },
            // ASR
            0x4B => {
                let r = self.asr();
                self.advance(r, op.bytes)
            },
            // CLI
            0x58 => {
                self.status_reg.interrupt_disable = false;
                Ok(Flow::Continue)
            },
            // BVC
            0x50 => {
                let r = self.bvc();
                Self::continued(r)
            },
            // JMP absolute
            0x4C => {
                let r = self.jmp_absolute();
                Self::continued(r)
            },
            // RTI
            0x40 => {
                self.rti();
                Ok(Flow::Continue)
            },
            // PHA
            0x48 => {
                self.push_stack(self.reg_a);
                Ok(Flow::Continue)
            },
            // excluded by the precondition
            _ => Ok(Flow::Halt),
        }
    }

    /// Opcodes 0x60 - 0x7F.
    fn execute_3(&mut self, code: u8, op: OpCode) -> (r: Result<Flow, CpuError>)
        requires
            code / 32 == 3,
            op == opcodes::opcode_spec(code),
        ensures
            (final(self)@, r) == old(self)@.execute(code),
    {
        proof {
            reveal(CpuView::execute);
        }
        match code {
            // KIL
            0x62 | 0x72 => Ok(Flow::Halt),
            // NOP
            0x7A => Ok(Flow::Continue),
            // ADC
            0x61 | 0x65 | 0x69 | 0x6D | 0x71 | 0x75 | 0x79 | 0x7D => {
                let r = self.adc(&op.addr_mode);
                self.advance(r, op.bytes)
            },
            // RRA
            0x63 | 0x67 | 0x6F | 0x73 | 0x77 | 0x7B | 0x7F => {
                let r = self.rra(&op.addr_mode);
                self.advance(r, op.bytes)
            },
            // DOP, TOP
            0x64 | 0x74 | 0x7C => {
                let r = self.dop(&op.addr_mode);
                self.advance(r, op.bytes)
            },
            // ROR A
            0x6A => {
                self.ror_a();
                Ok(Flow::Continue)
            },
            // ROR
            0x66 | 0x6E | 0x76 | 0x7E => {
                let r = self.ror(&op.addr_mode);
                self.advance(r, op.bytes)
            },
            // ARR
            0x6B => {
                let r = self.arr();
                self.advance(r, op.bytes)
            },
            // SEI
            0x78 => {
                self.status_reg.interrupt_disable = true;
                Ok(Flow::Continue)
            },
            // BVS
            0x70 => {
                let r = self.bvs();
                Self::continued(r)
            },
            // JMP indirect
            0x6C => {
                let r = self.jmp_indirect();
                Self::continued(r)
            },
            // RTS
            0x60 => {
                self.rts();
                Ok(Flow::Continue)
            },
            // PLA
            0x68 => {
                self.pla();
                Ok(Flow::Continue)
            },
            // excluded by the precondition
            _ => Ok(Flow::Halt),
        }
    }

    /// Opcodes 0x80 - 0x9F.
    fn execute_4(&mut self, code: u8, op: OpCode) -> (r: Result<Flow, CpuError>)
        requires
            code / 32 == 4,
            op == opcodes::opcode_spec(code),
        ensures
            (final(self)@, r) == old(self)@.execute(code),
    {
        proof {
            reveal(CpuView::execute);
        }
        match code {
            // KIL
            0x92 => Ok(Flow::Halt),
            // STA
            0x81 | 0x85 | 0x8D | 0x91 | 0x95 | 0x99 | 0x9D => {
                let r = self.sta(&op.addr_mode);
                self.advance(r, op.bytes)
            },
            // STX
            0x86 | 0x8E | 0x96 => {
                let r = self.stx(&op.addr_mode);
                self.advance(r, op.bytes)
            },
            // STY
            0x84 | 0x8C | 0x94 => {
                let r = self.sty(&op.addr_mode);
                self.advance(r, op.bytes)
            },
            // AAX
            0x83 | 0x87 | 0x8F | 0x97 => {
                let r = self.aax(&op.addr_mode);
                self.advance(r, op.bytes)
            },
            // AXA
            0x93 | 0x9F => {
                let r = self.axa(&op.addr_mode);
                self.advance(r, op.bytes)
            },
            // DOP, TOP
            0x80 | 0x82 | 0x89 => {
                let r = self.dop(&op.addr_mode);
                self.advance(r, op.bytes)
            },
            // XAA
            0x8B => {
                let r = self.xaa();
                self.advance(r, op.bytes)
            },
            // SXA
            0x9E => {
                let r = self.sxa();
                self.advance(r, op.bytes)
            },
            // SYA
            0x9C => {
                let r = self.sya();
                self.advance(r, op.bytes)
            },
            // XAS
            0x9B => {
                let r = self.xas();
                self.advance(r, op.bytes)
            },
            // BCC
            0x90 => {
                let r = self.bcc();
                Self::continued(r)
            },
            // TXA
            0x8A => {
                self.txa();
                Ok(Flow::Continue)
            },
            // TXS
            0x9A => {
                self.stack_ptr = self.reg_x;
                Ok(Flow::Continue)
            },
            // TYA
            0x98 => {
                self.tya();
                Ok(Flow::Continue)
            },
            // DEY
            0x88 => {
                self.dey();
                Ok(Flow::Continue)
            },
            // excluded by the precondition
            _ => Ok(Flow::Halt),
        }
    }

    /// Opcodes 0xA0 - 0xBF.
    fn execute_5(&mut self, code: u8, op: OpCode) -> (r: Result<Flow, CpuError>)
        requires
            code / 32 == 5,
            op == opcodes::opcode_spec(code),
        ensures
            (final(self)@, r) == old(self)@.execute(code),
    {
        proof {
            reveal(CpuView::execute);
        }
        match code {
            // KIL
            0xB2 => Ok(Flow::Halt),
            // LDA
            0xA1 | 0xA5 | 0xA9 | 0xAD | 0xB1 | 0xB5 | 0xB9 | 0xBD => {
                let r = self.lda(&op.addr_mode);
                self.advance(r, op.bytes)
            },
            // LDX
            0xA2 | 0xA6 | 0xAE | 0xB6 | 0xBE => {
                let r = self.ldx(&op.addr_mode);
                self.advance(r, op.bytes)
            },
            // LDY
            0xA0 | 0xA4 | 0xAC | 0xB4 | 0xBC => {
                let r = self.ldy(&op.addr_mode);
                self.advance(r, op.bytes)
            },
            // LAR
            0xBB => {
                let r = self.lar(&op.addr_mode);
                self.advance(r, op.bytes)
            },
            // LAX
            0xA3 | 0xA7 | 0xAF | 0xB3 | 0xB7 | 0xBF => {
                let r = self.lax(&op.addr_mode);
                self.advance(r, op.bytes)
            },
            // ATX
            0xAB => {
                let r = self.atx();
                self.advance(r, op.bytes)
            },
            // CLV
            0xB8 => {
                self.status_reg.overflow = false;
                Ok(Flow::Continue)
            },
            // BCS
            0xB0 => {
                let r = self.bcs();
                Self::continued(r)
            },
            // TAX
            0xAA => {
                self.tax();
                Ok(Flow::Continue)
            },
            // TAY
            0xA8 => {
                self.tay();
                Ok(Flow::Continue)
            },
            // TSX
            0xBA => {
                self.tsx();
                Ok(Flow::Continue)
            },
            // excluded by the precondition
            _ => Ok(Flow::Halt),
        }
    }

    /// Opcodes 0xC0 - 0xDF.
    fn execute_6(&mut self, code: u8, op: OpCode) -> (r: Result<Flow, CpuError>)
        requires
            code / 32 == 6,
            op == opcodes::opcode_spec(code),
        ensures
            (final(self)@, r) == old(self)@.execute(code),
    {
        proof {
            reveal(CpuView::execute);
        }
        match code {
            // KIL
            0xD2 => Ok(Flow::Halt),
            // NOP
            0xDA => Ok(Flow::Continue),
            // CMP
            0xC1 | 0xC5 | 0xC9 | 0xCD | 0xD1 | 0xD5 | 0xD9 | 0xDD => {
                let r = self.cmp(&op.addr_mode);
                self.advance(r, op.bytes)
            },
            // CPY
            0xC0 | 0xC4 | 0xCC => {
                let r = self.cpy(&op.addr_mode);
                self.advance(r, op.bytes)
            },
            // DEC
            0xC6 | 0xCE | 0xD6 | 0xDE => {
                let r = self.dec(&op.addr_mode);
                self.advance(r, op.bytes)
            },
            // DCP
            0xC3 | 0xC7 | 0xCF | 0xD3 | 0xD7 | 0xDB | 0xDF => {
                let r = self.dcp(&op.addr_mode);
                self.advance(r, op.bytes)
            },
            // DOP, TOP
            0xC2 | 0xD4 | 0xDC => {
                let r = self.dop(&op.addr_mode);
                self.advance(r, op.bytes)
            },
            // AXS
            0xCB => {
                let r = self.axs();
                self.advance(r, op.bytes)
            },
            // CLD
            0xD8 => {
                self.status_reg.decimal_mode = false;
                Ok(Flow::Continue)
            },
            // BNE
            0xD0 => {
                let r = self.bne();
                Self::continued(r)
            },
            // INY
            0xC8 => {
                self.iny();
                Ok(Flow::Continue)
            },
            // DEX
            0xCA => {
                self.dex();
                Ok(Flow::Continue)
            },
            // excluded by the precondition
            _ => Ok(Flow::Halt),
        }
    }

    /// Opcodes 0xE0 - 0xFF.
    fn execute_7(&mut self, code: u8, op: OpCode) -> (r: Result<Flow, CpuError>)
        requires
            code / 32 == 7,
            op == opcodes::opcode_spec(code),
        ensures
            (final(self)@, r) == old(self)@.execute(code),
    {
        proof {
            reveal(CpuView::execute);
        }
        match code {
            // KIL
            0xF2 => Ok(Flow::Halt),
            // NOP
            0xEA | 0xFA => Ok(Flow::Continue),
            // SBC
            0xE1 | 0xE5 | 0xE9 | 0xEB | 0xED | 0xF1 | 0xF5 | 0xF9 | 0xFD => {
                let r = self.sbc(&op.addr_mode);
                self.advance(r, op.bytes)
            },
            // CPX
            0xE0 | 0xE4 | 0xEC => {
                let r = self.cpx(&op.addr_mode);
                self.advance(r, op.bytes)
            },
            // INC
            0xE6 | 0xEE | 0xF6 | 0xFE => {
                let r = self.inc(&op.addr_mode);
                self.advance(r, op.bytes)
            },
            // ISC
            0xE3 | 0xE7 | 0xEF | 0xF3 | 0xF7 | 0xFB | 0xFF => {
                let r = self.isc(&op.addr_mode);
                self.advance(r, op.bytes)
            },
            // DOP, TOP
            0xE2 | 0xF4 | 0xFC => {
                let r = self.dop(&op.addr_mode);
                self.advance(r, op.bytes)
            },
            // SED
            0xF8 => {
                self.status_reg.decimal_mode = true;
                Ok(Flow::Continue)
            },
            // BEQ
            0xF0 => {
                let r = self.beq();
                Self::continued(r)
            },
            // INX
            0xE8 => {
                self.inx();
                Ok(Flow::Continue)
            },
            // excluded by the precondition
            _ => Ok(Flow::Halt),
        }
    }

    /// Fetches, decodes and executes one instruction.
    pub fn step(&mut self) -> (r: Result<Flow, CpuError>)
        ensures
            (final(self)@, r) == old(self)@.step(),
    {
        let code = self.read_mem(self.program_counter)?;
        self.program_counter = self.program_counter.wrapping_add(1);
        self.execute(code)
    }

    /// Clears A, X and Y, sets the power-up flags and loads the program
    /// counter from the reset vector at 0xFFFC.
    pub fn reset(&mut self)
        ensures
            final(self)@ == old(self)@.reset(),
    {
        proof {
            crate::bus::lemma_plain_read(self.bus@, RESET_VECTOR);
            crate::bus::lemma_plain_read(self.bus@, (RESET_VECTOR + 1) as u16);
        }
        self.reg_a = 0;
        self.reg_x = 0;
        self.reg_y = 0;
        self.status_reg = CpuFlags::from_bits(0b0010_0100);
        let lo = self.bus.peek(RESET_VECTOR);
        let hi = self.bus.peek(RESET_VECTOR + 1);
        self.program_counter = (hi as u16) * 256 + (lo as u16);
    }

    /// Runs until a BRK, a halting opcode or a fault, calling `callback`
    /// with the processor before each instruction. The run gives up, with
    /// `Ok(Flow::Continue)`, only after `u64::MAX` instructions.
    pub fn run_with_callback<F: FnMut(&CPU)>(&mut self, mut callback: F) -> (r: Result<
        Flow,
        CpuError,
    >)
        requires
            forall|c: &CPU| #[trigger] call_requires(callback, (c,)),
        ensures
            (final(self)@, r) == old(self)@.run_for(u64::MAX as nat + 1),
    {
        let mut count: u64 = 0;
        loop
            invariant
                forall|c: &CPU| #[trigger] call_requires(callback, (c,)),
                old(self)@.run_for(u64::MAX as nat + 1) == self@.run_for(
                    (u64::MAX as nat + 1 - count) as nat,
                ),
            decreases u64::MAX - count,
        {
            callback(&*self);
            let ghost before = self@;
            let r = self.step();
            match r {
                Ok(Flow::Continue) => {},
                _ => {
                    return r;
                },
            }
            if count == u64::MAX {
                proof {
                    reveal_with_fuel(CpuView::run_for, 2);
                    assert(before.run_for(1) == (self@, Ok::<Flow, CpuError>(Flow::Continue)));
                }
                return Ok(Flow::Continue);
            }
            count = count + 1;
        }
    }

    /// Runs until a BRK, a halting opcode or a fault.
    pub fn run(&mut self) -> (r: Result<Flow, CpuError>)
        ensures
            (final(self)@, r) == old(self)@.run_for(u64::MAX as nat + 1),
    {
        self.run_with_callback(|_c: &CPU| {})
    }
}

} // verus!
