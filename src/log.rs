use vstd::prelude::*;

use crate::cpu::{wrap16, wrap8, AddressingMode, CpuView, CPU};
use crate::opcodes::{self, opcode_spec, OpCode};

verus! {

// A trace line for a processor state, in the layout of the usual 6502 test
// logs:
//
//   0064  A2 01     LDX #$01                        A:01 X:02 Y:03 P:24 SP:FD
//
// program counter, the instruction's bytes, its mnemonic and operand (with
// the addresses and bytes it refers to), padded to 47 columns, then the
// registers. Memory is read with `peek`, so writing a trace changes nothing.

pub open spec fn hex_char(d: u8) -> char {
    seq!['0', '1', '2', '3', '4', '5', '6', '7', '8', '9', 'A', 'B', 'C', 'D', 'E', 'F'][d as int]
}

/// Two upper-case hex digits.
pub open spec fn hex2(v: u8) -> Seq<char> {
    seq![hex_char(v / 16), hex_char(v % 16)]
}

/// Four upper-case hex digits.
pub open spec fn hex4(v: u16) -> Seq<char> {
    hex2((v / 256) as u8) + hex2((v % 256) as u8)
}

/// The register section that ends every trace line.
pub open spec fn register_text(c: CpuView) -> Seq<char> {
    seq![' ', 'A', ':'] + hex2(c.a) + seq![' ', 'X', ':'] + hex2(c.x) + seq![' ', 'Y', ':'] + hex2(
        c.y,
    ) + seq![' ', 'P', ':'] + hex2(c.p.to_byte()) + seq![' ', 'S', 'P', ':'] + hex2(c.sp)
}

fn hex_digit(d: u8) -> (r: &'static str)
    requires
        d < 16,
    ensures
        r@ == seq![hex_char(d)],
{
    match d {
        0 => { proof { reveal_strlit("0"); } "0" },
        1 => { proof { reveal_strlit("1"); } "1" },
        2 => { proof { reveal_strlit("2"); } "2" },
        3 => { proof { reveal_strlit("3"); } "3" },
        4 => { proof { reveal_strlit("4"); } "4" },
        5 => { proof { reveal_strlit("5"); } "5" },
        6 => { proof { reveal_strlit("6"); } "6" },
        7 => { proof { reveal_strlit("7"); } "7" },
        8 => { proof { reveal_strlit("8"); } "8" },
        9 => { proof { reveal_strlit("9"); } "9" },
        10 => { proof { reveal_strlit("A"); } "A" },
        11 => { proof { reveal_strlit("B"); } "B" },
        12 => { proof { reveal_strlit("C"); } "C" },
        13 => { proof { reveal_strlit("D"); } "D" },
        14 => { proof { reveal_strlit("E"); } "E" },
        _ => { proof { reveal_strlit("F"); } "F" },
    }
}

fn append_hex2(s: &mut String, v: u8)
    ensures
        final(s)@ == old(s)@ + hex2(v),
{
    s.append(hex_digit(v / 16));
    s.append(hex_digit(v % 16));
    assert(final(s)@ =~= old(s)@ + hex2(v));
}

fn append_hex4(s: &mut String, v: u16)
    ensures
        final(s)@ == old(s)@ + hex4(v),
{
    append_hex2(s, (v / 256) as u8);
    append_hex2(s, (v % 256) as u8);
    assert(final(s)@ =~= old(s)@ + hex4(v));
}

/// `n` spaces (none when `n` is not positive).
pub open spec fn spaces(n: int) -> Seq<char> {
    Seq::new(if n > 0 { n as nat } else { 0 }, |i: int| ' ')
}

/// `s` followed by spaces up to `width` characters.
pub open spec fn padded(s: Seq<char>, width: int) -> Seq<char> {
    s + spaces(width - s.len())
}

/// `s` preceded by spaces up to `width` characters.
pub open spec fn right_aligned(s: Seq<char>, width: int) -> Seq<char> {
    spaces(width - s.len()) + s
}

/// The byte `k` places after the program counter.
pub open spec fn operand_byte(c: CpuView, k: int) -> u8 {
    c.bus.peek(wrap16(c.pc + k))
}

/// The little-endian word after the opcode.
pub open spec fn operand_word(c: CpuView) -> u16 {
    (operand_byte(c, 2) as int * 256 + operand_byte(c, 1) as int) as u16
}

/// The instruction's bytes, two hex digits each, separated by spaces.
pub open spec fn dump_text(c: CpuView, op: OpCode) -> Seq<char> {
    hex2(c.bus.peek(c.pc)) + (if op.bytes >= 2 {
        " "@ + hex2(operand_byte(c, 1))
    } else {
        Seq::empty()
    }) + (if op.bytes >= 3 {
        " "@ + hex2(operand_byte(c, 2))
    } else {
        Seq::empty()
    })
}

/// The operand as written, then what it refers to.
pub open spec fn operand_spec(c: CpuView, op: OpCode) -> Seq<char> {
    let b1 = operand_byte(c, 1);
    let word = operand_word(c);
    if op.bytes == 1 {
        if op.op == 0x0A || op.op == 0x4A || op.op == 0x2A || op.op == 0x6A {
            "A"@
        } else {
            Seq::empty()
        }
    } else if op.bytes == 2 {
        match op.addr_mode {
            AddressingMode::Immediate => "#$"@ + hex2(b1),
            AddressingMode::NoneAddressing => "$"@ + hex4(
                wrap16(c.pc + 2 + CpuView::signed(b1)),
            ),
            AddressingMode::ZeroPage => "$"@ + hex2(b1) + " = "@ + hex2(c.bus.peek(b1 as u16)),
            AddressingMode::ZeroPageX => {
                let a = wrap8(b1 + c.x);
                "$"@ + hex2(b1) + ",X @ "@ + hex2(a) + " = "@ + hex2(c.bus.peek(a as u16))
            },
            AddressingMode::ZeroPageY => {
                let a = wrap8(b1 + c.y);
                "$"@ + hex2(b1) + ",Y @ "@ + hex2(a) + " = "@ + hex2(c.bus.peek(a as u16))
            },
            AddressingMode::IndirectX => {
                let ptr = wrap8(b1 + c.x);
                let e = (c.bus.peek(wrap8(ptr + 1) as u16) as int * 256 + c.bus.peek(
                    ptr as u16,
                ) as int) as u16;
                "($"@ + hex2(b1) + ",X) @ "@ + hex2(ptr) + " = "@ + hex4(e) + " = "@ + hex2(
                    c.bus.peek(e),
                )
            },
            AddressingMode::IndirectY => {
                let base = (c.bus.peek(wrap8(b1 + 1) as u16) as int * 256 + c.bus.peek(
                    b1 as u16,
                ) as int) as u16;
                let e = wrap16(base + c.y);
                "($"@ + hex2(b1) + "),Y = "@ + hex4(base) + " @ "@ + hex4(e) + " = "@ + hex2(
                    c.bus.peek(e),
                )
            },
            _ => Seq::empty(),
        }
    } else {
        match op.addr_mode {
            AddressingMode::Absolute => if op.op != 0x4C && op.op != 0x20 {
                "$"@ + hex4(word) + " = "@ + hex2(c.bus.peek(word))
            } else {
                "$"@ + hex4(word)
            },
            AddressingMode::AbsoluteX => {
                let a = wrap16(word + c.x);
                "$"@ + hex4(word) + ",X @ "@ + hex4(a) + " = "@ + hex2(c.bus.peek(a))
            },
            AddressingMode::AbsoluteY => {
                let a = wrap16(word + c.y);
                "$"@ + hex4(word) + ",Y @ "@ + hex4(a) + " = "@ + hex2(c.bus.peek(a))
            },
            AddressingMode::IndirectX => {
                let hi = if word & 0x00FF == 0x00FF {
                    c.bus.peek(word & 0xFF00)
                } else {
                    c.bus.peek(wrap16(word + 1))
                };
                "($"@ + hex4(word) + ") = "@ + hex4(
                    (hi as int * 256 + c.bus.peek(word) as int) as u16,
                )
            },
            _ => Seq::empty(),
        }
    }
}

/// Address, bytes, mnemonic and operand of the instruction at the program
/// counter.
pub open spec fn instruction_text(c: CpuView) -> Seq<char> {
    let op = opcode_spec(c.bus.peek(c.pc));
    let operand = operand_spec(c, op);
    hex4(c.pc) + "  "@ + padded(dump_text(c, op), 8) + " "@ + right_aligned(op.name@, 4) + (if operand.len()
        > 0 {
        " "@ + operand
    } else {
        Seq::empty()
    })
}

/// The whole trace line of a state.
pub open spec fn trace_line(c: CpuView) -> Seq<char> {
    padded(instruction_text(c), 47) + register_text(c)
}

/// Appends spaces until the text is `width` characters long.
fn pad_right(s: &mut String, width: usize)
    ensures
        final(s)@ == padded(old(s)@, width as int),
{
    while s.as_str().unicode_len() < width
        invariant
            old(s)@.len() <= s@.len(),
            s@.len() > old(s)@.len() ==> s@.len() <= width,
            s@ == old(s)@ + spaces(s@.len() - old(s)@.len()),
        decreases width - s@.len(),
    {
        proof {
            reveal_strlit(" ");
        }
        s.append(" ");
        assert(s@ =~= old(s)@ + spaces(s@.len() - old(s)@.len()));
    }
    assert(s@ =~= padded(old(s)@, width as int));
}

fn operand_text(cpu: &CPU, pc: u16, op: &OpCode) -> (t: String)
    requires
        pc == cpu.program_counter,
    ensures
        t@ == operand_spec(cpu@, *op),
{
    let b1 = cpu.bus.peek(pc.wrapping_add(1));
    let b2 = cpu.bus.peek(pc.wrapping_add(2));
    let word = (b2 as u16) * 256 + (b1 as u16);
    let mut t = String::new();
    if op.bytes == 1 {
        if op.op == 0x0A || op.op == 0x4A || op.op == 0x2A || op.op == 0x6A {
            t.append("A");
        }
    } else if op.bytes == 2 {
        match op.addr_mode {
            AddressingMode::Immediate => {
                t.append("#$");
                append_hex2(&mut t, b1);
            },
            AddressingMode::NoneAddressing => {
                let next = pc.wrapping_add(2).wrapping_add(b1 as u16);
                let target = if b1 >= 0x80 {
                    next.wrapping_sub(0x100)
                } else {
                    next
                };
                t.append("$");
                append_hex4(&mut t, target);
            },
            AddressingMode::ZeroPage => {
                t.append("$");
                append_hex2(&mut t, b1);
                t.append(" = ");
                append_hex2(&mut t, cpu.bus.peek(b1 as u16));
            },
            AddressingMode::ZeroPageX => {
                let addr = b1.wrapping_add(cpu.reg_x);
                t.append("$");
                append_hex2(&mut t, b1);
                t.append(",X @ ");
                append_hex2(&mut t, addr);
                t.append(" = ");
                append_hex2(&mut t, cpu.bus.peek(addr as u16));
            },
            AddressingMode::ZeroPageY => {
                let addr = b1.wrapping_add(cpu.reg_y);
                t.append("$");
                append_hex2(&mut t, b1);
                t.append(",Y @ ");
                append_hex2(&mut t, addr);
                t.append(" = ");
                append_hex2(&mut t, cpu.bus.peek(addr as u16));
            },
            AddressingMode::IndirectX => {
                let ptr = b1.wrapping_add(cpu.reg_x);
                let lo = cpu.bus.peek(ptr as u16);
                let hi = cpu.bus.peek(ptr.wrapping_add(1) as u16);
                let effective = (hi as u16) * 256 + (lo as u16);
                t.append("($");
                append_hex2(&mut t, b1);
                t.append(",X) @ ");
                append_hex2(&mut t, ptr);
                t.append(" = ");
                append_hex4(&mut t, effective);
                t.append(" = ");
                append_hex2(&mut t, cpu.bus.peek(effective));
            },
            AddressingMode::IndirectY => {
                let lo = cpu.bus.peek(b1 as u16);
                let hi = cpu.bus.peek(b1.wrapping_add(1) as u16);
                let base = (hi as u16) * 256 + (lo as u16);
                let effective = base.wrapping_add(cpu.reg_y as u16);
                t.append("($");
                append_hex2(&mut t, b1);
                t.append("),Y = ");
                append_hex4(&mut t, base);
                t.append(" @ ");
                append_hex4(&mut t, effective);
                t.append(" = ");
                append_hex2(&mut t, cpu.bus.peek(effective));
            },
            _ => {},
        }
    } else {
        match op.addr_mode {
            AddressingMode::Absolute => {
                t.append("$");
                append_hex4(&mut t, word);
                if op.op != 0x4C && op.op != 0x20 {
                    t.append(" = ");
                    append_hex2(&mut t, cpu.bus.peek(word));
                }
            },
            AddressingMode::AbsoluteX => {
                let addr = word.wrapping_add(cpu.reg_x as u16);
                t.append("$");
                append_hex4(&mut t, word);
                t.append(",X @ ");
                append_hex4(&mut t, addr);
                t.append(" = ");
                append_hex2(&mut t, cpu.bus.peek(addr));
            },
            AddressingMode::AbsoluteY => {
                let addr = word.wrapping_add(cpu.reg_y as u16);
                t.append("$");
                append_hex4(&mut t, word);
                t.append(",Y @ ");
                append_hex4(&mut t, addr);
                t.append(" = ");
                append_hex2(&mut t, cpu.bus.peek(addr));
            },
            AddressingMode::IndirectX => {
                let lo = cpu.bus.peek(word);
                let hi = if word & 0x00FF == 0x00FF {
                    cpu.bus.peek(word & 0xFF00)
                } else {
                    cpu.bus.peek(word.wrapping_add(1))
                };
                t.append("($");
                append_hex4(&mut t, word);
                t.append(") = ");
                append_hex4(&mut t, (hi as u16) * 256 + (lo as u16));
            },
            _ => {},
        }
    }
    assert(t@ =~= operand_spec(cpu@, *op));
    t
}

fn right_align(s: &str, width: usize) -> (r: String)
    ensures
        r@ == right_aligned(s@, width as int),
{
    let mut r = String::new();
    let len = s.unicode_len();
    if len < width {
        let mut i: usize = 0;
        while i < width - len
            invariant
                len < width,
                len == s@.len(),
                i <= width - len,
                r@ == spaces(i as int),
            decreases width - len - i,
        {
            proof {
                reveal_strlit(" ");
            }
            r.append(" ");
            assert(r@ =~= spaces(i + 1));
            i = i + 1;
        }
    } else {
        assert(r@ =~= spaces(width - len));
    }
    r.append(s);
    assert(r@ =~= right_aligned(s@, width as int));
    r
}

fn dump(cpu: &CPU, op: &OpCode) -> (r: String)
    requires
        op.op == cpu@.bus.peek(cpu.program_counter),
    ensures
        r@ == padded(dump_text(cpu@, *op), 8),
{
    let pc = cpu.program_counter;
    let mut d = String::new();
    append_hex2(&mut d, op.op);
    if op.bytes >= 2 {
        d.append(" ");
        append_hex2(&mut d, cpu.bus.peek(pc.wrapping_add(1)));
    }
    if op.bytes >= 3 {
        d.append(" ");
        append_hex2(&mut d, cpu.bus.peek(pc.wrapping_add(2)));
    }
    assert(d@ =~= dump_text(cpu@, *op));
    pad_right(&mut d, 8);
    d
}

fn instruction(cpu: &CPU) -> (r: String)
    ensures
        r@ == instruction_text(cpu@),
{
    let pc = cpu.program_counter;
    let op = opcodes::lookup(cpu.bus.peek(pc));
    let d = dump(cpu, &op);
    let name = right_align(op.name, 4);
    let operand = operand_text(cpu, pc, &op);
    let mut line = String::new();
    append_hex4(&mut line, pc);
    line.append("  ");
    line.append(d.as_str());
    line.append(" ");
    line.append(name.as_str());
    if operand.as_str().unicode_len() > 0 {
        line.append(" ");
        line.append(operand.as_str());
    }
    assert(line@ =~= instruction_text(cpu@));
    line
}

/// One trace line for the processor's state before the instruction at its
/// program counter.
pub fn log(cpu: &CPU) -> (r: String)
    ensures
        r@ == trace_line(cpu@),
{
    let mut line = instruction(cpu);
    pad_right(&mut line, 47);
    let ghost body = line@;
    proof {
        reveal_strlit(" A:");
        reveal_strlit(" X:");
        reveal_strlit(" Y:");
        reveal_strlit(" P:");
        reveal_strlit(" SP:");
    }
    line.append(" A:");
    append_hex2(&mut line, cpu.reg_a);
    line.append(" X:");
    append_hex2(&mut line, cpu.reg_x);
    line.append(" Y:");
    append_hex2(&mut line, cpu.reg_y);
    line.append(" P:");
    append_hex2(&mut line, cpu.status_reg.bits());
    line.append(" SP:");
    append_hex2(&mut line, cpu.stack_ptr);
    assert(line@ =~= body + register_text(cpu@));
    line
}

} // verus!
