use vstd::prelude::*;

use crate::cpu::AddressingMode;

verus! {

/// What the table records of one opcode byte.
#[derive(Clone, Copy, Debug)]
pub struct OpCode {
    pub op: u8,
    pub name: &'static str,
    /// Length of the instruction in bytes, opcode included.
    pub bytes: u8,
    /// Base cycle cost.
    pub cycles: u8,
    pub addr_mode: AddressingMode,
}

impl OpCode {
    pub fn new(opc: u8, na: &'static str, bt: u8, cy: u8, admode: AddressingMode) -> (r: Self)
        ensures
            r == (OpCode { op: opc, name: na, bytes: bt, cycles: cy, addr_mode: admode }),
    {
        OpCode { op: opc, name: na, bytes: bt, cycles: cy, addr_mode: admode }
    }
}

/// The opcode table: every byte value, the documented instructions and the
/// undocumented ones alike, by rows of sixteen.
#[verifier::opaque]
pub open spec fn opcode_spec(code: u8) -> OpCode {
    match code / 16 {
        0 => row_0(code),
        1 => row_1(code),
        2 => row_2(code),
        3 => row_3(code),
        4 => row_4(code),
        5 => row_5(code),
        6 => row_6(code),
        7 => row_7(code),
        8 => row_8(code),
        9 => row_9(code),
        10 => row_a(code),
        11 => row_b(code),
        12 => row_c(code),
        13 => row_d(code),
        14 => row_e(code),
        _ => row_f(code),
    }
}

/// Opcodes 0x00 - 0x0F.
pub open spec fn row_0(code: u8) -> OpCode {
    match code {
        0x00 => OpCode { op: 0x00, name: "BRK", bytes: 1, cycles: 7, addr_mode: AddressingMode::NoneAddressing },
        0x01 => OpCode { op: 0x01, name: "ORA", bytes: 2, cycles: 6, addr_mode: AddressingMode::IndirectX },
        0x02 => OpCode { op: 0x02, name: "KIL", bytes: 1, cycles: 2, addr_mode: AddressingMode::NoneAddressing },
        0x03 => OpCode { op: 0x03, name: "SLO", bytes: 2, cycles: 8, addr_mode: AddressingMode::IndirectX },
        0x04 => OpCode { op: 0x04, name: "DOP", bytes: 2, cycles: 3, addr_mode: AddressingMode::ZeroPage },
        0x05 => OpCode { op: 0x05, name: "ORA", bytes: 2, cycles: 3, addr_mode: AddressingMode::ZeroPage },
        0x06 => OpCode { op: 0x06, name: "ASL", bytes: 2, cycles: 5, addr_mode: AddressingMode::ZeroPage },
        0x07 => OpCode { op: 0x07, name: "SLO", bytes: 2, cycles: 5, addr_mode: AddressingMode::ZeroPage },
        0x08 => OpCode { op: 0x08, name: "PHP", bytes: 1, cycles: 3, addr_mode: AddressingMode::NoneAddressing },
        0x09 => OpCode { op: 0x09, name: "ORA", bytes: 2, cycles: 2, addr_mode: AddressingMode::Immediate },
        0x0A => OpCode { op: 0x0A, name: "ASL", bytes: 1, cycles: 2, addr_mode: AddressingMode::NoneAddressing },
        0x0B => OpCode { op: 0x0B, name: "AAC", bytes: 2, cycles: 2, addr_mode: AddressingMode::Immediate },
        0x0C => OpCode { op: 0x0C, name: "TOP", bytes: 3, cycles: 4, addr_mode: AddressingMode::Absolute },
        0x0D => OpCode { op: 0x0D, name: "ORA", bytes: 3, cycles: 4, addr_mode: AddressingMode::Absolute },
        0x0E => OpCode { op: 0x0E, name: "ASL", bytes: 3, cycles: 6, addr_mode: AddressingMode::Absolute },
        _ => OpCode { op: 0x0F, name: "SLO", bytes: 3, cycles: 6, addr_mode: AddressingMode::Absolute },
    }
}

/// Opcodes 0x10 - 0x1F.
pub open spec fn row_1(code: u8) -> OpCode {
    match code {
        0x10 => OpCode { op: 0x10, name: "BPL", bytes: 2, cycles: 2, addr_mode: AddressingMode::NoneAddressing },
        0x11 => OpCode { op: 0x11, name: "ORA", bytes: 2, cycles: 5, addr_mode: AddressingMode::IndirectY },
        0x12 => OpCode { op: 0x12, name: "KIL", bytes: 1, cycles: 2, addr_mode: AddressingMode::NoneAddressing },
        0x13 => OpCode { op: 0x13, name: "SLO", bytes: 2, cycles: 8, addr_mode: AddressingMode::IndirectY },
        0x14 => OpCode { op: 0x14, name: "DOP", bytes: 2, cycles: 4, addr_mode: AddressingMode::ZeroPageX },
        0x15 => OpCode { op: 0x15, name: "ORA", bytes: 2, cycles: 4, addr_mode: AddressingMode::ZeroPageX },
        0x16 => OpCode { op: 0x16, name: "ASL", bytes: 2, cycles: 6, addr_mode: AddressingMode::ZeroPageX },
        0x17 => OpCode { op: 0x17, name: "SLO", bytes: 2, cycles: 6, addr_mode: AddressingMode::ZeroPageX },
        0x18 => OpCode { op: 0x18, name: "CLC", bytes: 1, cycles: 2, addr_mode: AddressingMode::NoneAddressing },
        0x19 => OpCode { op: 0x19, name: "ORA", bytes: 3, cycles: 4, addr_mode: AddressingMode::AbsoluteY },
        0x1A => OpCode { op: 0x1A, name: "NOP", bytes: 1, cycles: 2, addr_mode: AddressingMode::NoneAddressing },
        0x1B => OpCode { op: 0x1B, name: "SLO", bytes: 3, cycles: 7, addr_mode: AddressingMode::AbsoluteY },
        0x1C => OpCode { op: 0x1C, name: "TOP", bytes: 3, cycles: 4, addr_mode: AddressingMode::AbsoluteX },
        0x1D => OpCode { op: 0x1D, name: "ORA", bytes: 3, cycles: 4, addr_mode: AddressingMode::AbsoluteX },
        0x1E => OpCode { op: 0x1E, name: "ASL", bytes: 3, cycles: 7, addr_mode: AddressingMode::AbsoluteX },
        _ => OpCode { op: 0x1F, name: "SLO", bytes: 3, cycles: 7, addr_mode: AddressingMode::AbsoluteX },
    }
}

/// Opcodes 0x20 - 0x2F.
pub open spec fn row_2(code: u8) -> OpCode {
    match code {
        0x20 => OpCode { op: 0x20, name: "JSR", bytes: 3, cycles: 6, addr_mode: AddressingMode::Absolute },
        0x21 => OpCode { op: 0x21, name: "AND", bytes: 2, cycles: 6, addr_mode: AddressingMode::IndirectX },
        0x22 => OpCode { op: 0x22, name: "KIL", bytes: 1, cycles: 2, addr_mode: AddressingMode::NoneAddressing },
        0x23 => OpCode { op: 0x23, name: "RLA", bytes: 2, cycles: 8, addr_mode: AddressingMode::IndirectX },
        0x24 => OpCode { op: 0x24, name: "BIT", bytes: 2, cycles: 3, addr_mode: AddressingMode::ZeroPage },
        0x25 => OpCode { op: 0x25, name: "AND", bytes: 2, cycles: 3, addr_mode: AddressingMode::ZeroPage },
        0x26 => OpCode { op: 0x26, name: "ROL", bytes: 2, cycles: 5, addr_mode: AddressingMode::ZeroPage },
        0x27 => OpCode { op: 0x27, name: "RLA", bytes: 2, cycles: 5, addr_mode: AddressingMode::ZeroPage },
        0x28 => OpCode { op: 0x28, name: "PLP", bytes: 1, cycles: 4, addr_mode: AddressingMode::NoneAddressing },
        0x29 => OpCode { op: 0x29, name: "AND", bytes: 2, cycles: 2, addr_mode: AddressingMode::Immediate },
        0x2A => OpCode { op: 0x2A, name: "ROL", bytes: 1, cycles: 2, addr_mode: AddressingMode::NoneAddressing },
        0x2B => OpCode { op: 0x2B, name: "AAC", bytes: 2, cycles: 2, addr_mode: AddressingMode::Immediate },
        0x2C => OpCode { op: 0x2C, name: "BIT", bytes: 3, cycles: 4, addr_mode: AddressingMode::Absolute },
        0x2D => OpCode { op: 0x2D, name: "AND", bytes: 3, cycles: 4, addr_mode: AddressingMode::Absolute },
        0x2E => OpCode { op: 0x2E, name: "ROL", bytes: 3, cycles: 6, addr_mode: AddressingMode::Absolute },
        _ => OpCode { op: 0x2F, name: "RLA", bytes: 3, cycles: 6, addr_mode: AddressingMode::Absolute },
    }
}

/// Opcodes 0x30 - 0x3F.
pub open spec fn row_3(code: u8) -> OpCode {
    match code {
        0x30 => OpCode { op: 0x30, name: "BMI", bytes: 2, cycles: 2, addr_mode: AddressingMode::NoneAddressing },
        0x31 => OpCode { op: 0x31, name: "AND", bytes: 2, cycles: 5, addr_mode: AddressingMode::IndirectY },
        0x32 => OpCode { op: 0x32, name: "KIL", bytes: 1, cycles: 2, addr_mode: AddressingMode::NoneAddressing },
        0x33 => OpCode { op: 0x33, name: "RLA", bytes: 2, cycles: 8, addr_mode: AddressingMode::IndirectY },
        0x34 => OpCode { op: 0x34, name: "DOP", bytes: 2, cycles: 4, addr_mode: AddressingMode::ZeroPageX },
        0x35 => OpCode { op: 0x35, name: "AND", bytes: 2, cycles: 4, addr_mode: AddressingMode::ZeroPageX },
        0x36 => OpCode { op: 0x36, name: "ROL", bytes: 2, cycles: 6, addr_mode: AddressingMode::ZeroPageX },
        0x37 => OpCode { op: 0x37, name: "RLA", bytes: 2, cycles: 6, addr_mode: AddressingMode::ZeroPageX },
        0x38 => OpCode { op: 0x38, name: "SEC", bytes: 1, cycles: 2, addr_mode: AddressingMode::NoneAddressing },
        0x39 => OpCode { op: 0x39, name: "AND", bytes: 3, cycles: 4, addr_mode: AddressingMode::AbsoluteY },
        0x3A => OpCode { op: 0x3A, name: "NOP", bytes: 1, cycles: 2, addr_mode: AddressingMode::NoneAddressing },
        0x3B => OpCode { op: 0x3B, name: "RLA", bytes: 3, cycles: 7, addr_mode: AddressingMode::AbsoluteY },
        0x3C => OpCode { op: 0x3C, name: "TOP", bytes: 3, cycles: 4, addr_mode: AddressingMode::AbsoluteX },
        0x3D => OpCode { op: 0x3D, name: "AND", bytes: 3, cycles: 4, addr_mode: AddressingMode::AbsoluteX },
        0x3E => OpCode { op: 0x3E, name: "ROL", bytes: 3, cycles: 7, addr_mode: AddressingMode::AbsoluteX },
        _ => OpCode { op: 0x3F, name: "RLA", bytes: 3, cycles: 7, addr_mode: AddressingMode::AbsoluteX },
    }
}

/// Opcodes 0x40 - 0x4F.
pub open spec fn row_4(code: u8) -> OpCode {
    match code {
        0x40 => OpCode { op: 0x40, name: "RTI", bytes: 1, cycles: 6, addr_mode: AddressingMode::NoneAddressing },
        0x41 => OpCode { op: 0x41, name: "EOR", bytes: 2, cycles: 6, addr_mode: AddressingMode::IndirectX },
        0x42 => OpCode { op: 0x42, name: "KIL", bytes: 1, cycles: 2, addr_mode: AddressingMode::NoneAddressing },
        0x43 => OpCode { op: 0x43, name: "SRE", bytes: 2, cycles: 8, addr_mode: AddressingMode::IndirectX },
        0x44 => OpCode { op: 0x44, name: "DOP", bytes: 2, cycles: 3, addr_mode: AddressingMode::ZeroPage },
        0x45 => OpCode { op: 0x45, name: "EOR", bytes: 2, cycles: 3, addr_mode: AddressingMode::ZeroPage },
        0x46 => OpCode { op: 0x46, name: "LSR", bytes: 2, cycles: 5, addr_mode: AddressingMode::ZeroPage },
        0x47 => OpCode { op: 0x47, name: "SRE", bytes: 2, cycles: 5, addr_mode: AddressingMode::ZeroPage },
        0x48 => OpCode { op: 0x48, name: "PHA", bytes: 1, cycles: 3, addr_mode: AddressingMode::NoneAddressing },
        0x49 => OpCode { op: 0x49, name: "EOR", bytes: 2, cycles: 2, addr_mode: AddressingMode::Immediate },
        0x4A => OpCode { op: 0x4A, name: "LSR", bytes: 1, cycles: 2, addr_mode: AddressingMode::NoneAddressing },
        0x4B => OpCode { op: 0x4B, name: "ASR", bytes: 2, cycles: 2, addr_mode: AddressingMode::Immediate },
        0x4C => OpCode { op: 0x4C, name: "JMP", bytes: 3, cycles: 3, addr_mode: AddressingMode::Absolute },
        0x4D => OpCode { op: 0x4D, name: "EOR", bytes: 3, cycles: 4, addr_mode: AddressingMode::Absolute },
        0x4E => OpCode { op: 0x4E, name: "LSR", bytes: 3, cycles: 6, addr_mode: AddressingMode::Absolute },
        _ => OpCode { op: 0x4F, name: "SRE", bytes: 3, cycles: 6, addr_mode: AddressingMode::Absolute },
    }
}

/// Opcodes 0x50 - 0x5F.
pub open spec fn row_5(code: u8) -> OpCode {
    match code {
        0x50 => OpCode { op: 0x50, name: "BVC", bytes: 2, cycles: 2, addr_mode: AddressingMode::NoneAddressing },
        0x51 => OpCode { op: 0x51, name: "EOR", bytes: 2, cycles: 5, addr_mode: AddressingMode::IndirectY },
        0x52 => OpCode { op: 0x52, name: "KIL", bytes: 1, cycles: 2, addr_mode: AddressingMode::NoneAddressing },
        0x53 => OpCode { op: 0x53, name: "SRE", bytes: 2, cycles: 8, addr_mode: AddressingMode::IndirectY },
        0x54 => OpCode { op: 0x54, name: "DOP", bytes: 2, cycles: 4, addr_mode: AddressingMode::ZeroPageX },
        0x55 => OpCode { op: 0x55, name: "EOR", bytes: 2, cycles: 4, addr_mode: AddressingMode::ZeroPageX },
        0x56 => OpCode { op: 0x56, name: "LSR", bytes: 2, cycles: 6, addr_mode: AddressingMode::ZeroPageX },
        0x57 => OpCode { op: 0x57, name: "SRE", bytes: 2, cycles: 6, addr_mode: AddressingMode::ZeroPageX },
        0x58 => OpCode { op: 0x58, name: "CLI", bytes: 1, cycles: 2, addr_mode: AddressingMode::NoneAddressing },
        0x59 => OpCode { op: 0x59, name: "EOR", bytes: 3, cycles: 4, addr_mode: AddressingMode::AbsoluteY },
        0x5A => OpCode { op: 0x5A, name: "NOP", bytes: 1, cycles: 2, addr_mode: AddressingMode::NoneAddressing },
        0x5B => OpCode { op: 0x5B, name: "SRE", bytes: 3, cycles: 7, addr_mode: AddressingMode::AbsoluteY },
        0x5C => OpCode { op: 0x5C, name: "TOP", bytes: 3, cycles: 4, addr_mode: AddressingMode::AbsoluteX },
        0x5D => OpCode { op: 0x5D, name: "EOR", bytes: 3, cycles: 4, addr_mode: AddressingMode::AbsoluteX },
        0x5E => OpCode { op: 0x5E, name: "LSR", bytes: 3, cycles: 7, addr_mode: AddressingMode::AbsoluteX },
        _ => OpCode { op: 0x5F, name: "SRE", bytes: 3, cycles: 7, addr_mode: AddressingMode::AbsoluteX },
    }
}

/// Opcodes 0x60 - 0x6F.
pub open spec fn row_6(code: u8) -> OpCode {
    match code {
        0x60 => OpCode { op: 0x60, name: "RTS", bytes: 1, cycles: 6, addr_mode: AddressingMode::NoneAddressing },
        0x61 => OpCode { op: 0x61, name: "ADC", bytes: 2, cycles: 6, addr_mode: AddressingMode::IndirectX },
        0x62 => OpCode { op: 0x62, name: "KIL", bytes: 1, cycles: 2, addr_mode: AddressingMode::NoneAddressing },
        0x63 => OpCode { op: 0x63, name: "RRA", bytes: 2, cycles: 8, addr_mode: AddressingMode::IndirectX },
        0x64 => OpCode { op: 0x64, name: "DOP", bytes: 2, cycles: 3, addr_mode: AddressingMode::ZeroPage },
        0x65 => OpCode { op: 0x65, name: "ADC", bytes: 2, cycles: 3, addr_mode: AddressingMode::ZeroPage },
        0x66 => OpCode { op: 0x66, name: "ROR", bytes: 2, cycles: 5, addr_mode: AddressingMode::ZeroPage },
        0x67 => OpCode { op: 0x67, name: "RRA", bytes: 2, cycles: 5, addr_mode: AddressingMode::ZeroPage },
        0x68 => OpCode { op: 0x68, name: "PLA", bytes: 1, cycles: 4, addr_mode: AddressingMode::NoneAddressing },
        0x69 => OpCode { op: 0x69, name: "ADC", bytes: 2, cycles: 2, addr_mode: AddressingMode::Immediate },
        0x6A => OpCode { op: 0x6A, name: "ROR", bytes: 1, cycles: 2, addr_mode: AddressingMode::NoneAddressing },
        0x6B => OpCode { op: 0x6B, name: "ARR", bytes: 2, cycles: 2, addr_mode: AddressingMode::Immediate },
        0x6C => OpCode { op: 0x6C, name: "JMP", bytes: 3, cycles: 5, addr_mode: AddressingMode::IndirectX },
        0x6D => OpCode { op: 0x6D, name: "ADC", bytes: 3, cycles: 4, addr_mode: AddressingMode::Absolute },
        0x6E => OpCode { op: 0x6E, name: "ROR", bytes: 3, cycles: 6, addr_mode: AddressingMode::Absolute },
        _ => OpCode { op: 0x6F, name: "RRA", bytes: 3, cycles: 6, addr_mode: AddressingMode::Absolute },
    }
}

/// Opcodes 0x70 - 0x7F.
pub open spec fn row_7(code: u8) -> OpCode {
    match code {
        0x70 => OpCode { op: 0x70, name: "BVS", bytes: 2, cycles: 2, addr_mode: AddressingMode::NoneAddressing },
        0x71 => OpCode { op: 0x71, name: "ADC", bytes: 2, cycles: 5, addr_mode: AddressingMode::IndirectY },
        0x72 => OpCode { op: 0x72, name: "KIL", bytes: 1, cycles: 2, addr_mode: AddressingMode::NoneAddressing },
        0x73 => OpCode { op: 0x73, name: "RRA", bytes: 2, cycles: 8, addr_mode: AddressingMode::IndirectY },
        0x74 => OpCode { op: 0x74, name: "DOP", bytes: 2, cycles: 4, addr_mode: AddressingMode::ZeroPageX },
        0x75 => OpCode { op: 0x75, name: "ADC", bytes: 2, cycles: 4, addr_mode: AddressingMode::ZeroPageX },
        0x76 => OpCode { op: 0x76, name: "ROR", bytes: 2, cycles: 6, addr_mode: AddressingMode::ZeroPageX },
        0x77 => OpCode { op: 0x77, name: "RRA", bytes: 2, cycles: 6, addr_mode: AddressingMode::ZeroPageX },
        0x78 => OpCode { op: 0x78, name: "SEI", bytes: 1, cycles: 2, addr_mode: AddressingMode::NoneAddressing },
        0x79 => OpCode { op: 0x79, name: "ADC", bytes: 3, cycles: 4, addr_mode: AddressingMode::AbsoluteY },
        0x7A => OpCode { op: 0x7A, name: "NOP", bytes: 1, cycles: 2, addr_mode: AddressingMode::NoneAddressing },
        0x7B => OpCode { op: 0x7B, name: "RRA", bytes: 3, cycles: 7, addr_mode: AddressingMode::AbsoluteY },
        0x7C => OpCode { op: 0x7C, name: "TOP", bytes: 3, cycles: 4, addr_mode: AddressingMode::AbsoluteX },
        0x7D => OpCode { op: 0x7D, name: "ADC", bytes: 3, cycles: 4, addr_mode: AddressingMode::AbsoluteX },
        0x7E => OpCode { op: 0x7E, name: "ROR", bytes: 3, cycles: 7, addr_mode: AddressingMode::AbsoluteX },
        _ => OpCode { op: 0x7F, name: "RRA", bytes: 3, cycles: 7, addr_mode: AddressingMode::AbsoluteX },
    }
}

/// Opcodes 0x80 - 0x8F.
pub open spec fn row_8(code: u8) -> OpCode {
    match code {
        0x80 => OpCode { op: 0x80, name: "DOP", bytes: 2, cycles: 2, addr_mode: AddressingMode::Immediate },
        0x81 => OpCode { op: 0x81, name: "STA", bytes: 2, cycles: 6, addr_mode: AddressingMode::IndirectX },
        0x82 => OpCode { op: 0x82, name: "DOP", bytes: 2, cycles: 2, addr_mode: AddressingMode::Immediate },
        0x83 => OpCode { op: 0x83, name: "AAX", bytes: 2, cycles: 6, addr_mode: AddressingMode::IndirectX },
        0x84 => OpCode { op: 0x84, name: "STY", bytes: 2, cycles: 3, addr_mode: AddressingMode::ZeroPage },
        0x85 => OpCode { op: 0x85, name: "STA", bytes: 2, cycles: 3, addr_mode: AddressingMode::ZeroPage },
        0x86 => OpCode { op: 0x86, name: "STX", bytes: 2, cycles: 3, addr_mode: AddressingMode::ZeroPage },
        0x87 => OpCode { op: 0x87, name: "AAX", bytes: 2, cycles: 3, addr_mode: AddressingMode::ZeroPage },
        0x88 => OpCode { op: 0x88, name: "DEY", bytes: 1, cycles: 2, addr_mode: AddressingMode::NoneAddressing },
        0x89 => OpCode { op: 0x89, name: "DOP", bytes: 2, cycles: 2, addr_mode: AddressingMode::Immediate },
        0x8A => OpCode { op: 0x8A, name: "TXA", bytes: 1, cycles: 2, addr_mode: AddressingMode::NoneAddressing },
        0x8B => OpCode { op: 0x8B, name: "XAA", bytes: 2, cycles: 2, addr_mode: AddressingMode::Immediate },
        0x8C => OpCode { op: 0x8C, name: "STY", bytes: 3, cycles: 4, addr_mode: AddressingMode::Absolute },
        0x8D => OpCode { op: 0x8D, name: "STA", bytes: 3, cycles: 4, addr_mode: AddressingMode::Absolute },
        0x8E => OpCode { op: 0x8E, name: "STX", bytes: 3, cycles: 4, addr_mode: AddressingMode::Absolute },
        _ => OpCode { op: 0x8F, name: "AAX", bytes: 3, cycles: 4, addr_mode: AddressingMode::Absolute },
    }
}

/// Opcodes 0x90 - 0x9F.
pub open spec fn row_9(code: u8) -> OpCode {
    match code {
        0x90 => OpCode { op: 0x90, name: "BCC", bytes: 2, cycles: 2, addr_mode: AddressingMode::NoneAddressing },
        0x91 => OpCode { op: 0x91, name: "STA", bytes: 2, cycles: 6, addr_mode: AddressingMode::IndirectY },
        0x92 => OpCode { op: 0x92, name: "KIL", bytes: 1, cycles: 2, addr_mode: AddressingMode::NoneAddressing },
        0x93 => OpCode { op: 0x93, name: "AXA", bytes: 2, cycles: 6, addr_mode: AddressingMode::IndirectY },
        0x94 => OpCode { op: 0x94, name: "STY", bytes: 2, cycles: 4, addr_mode: AddressingMode::ZeroPageX },
        0x95 => OpCode { op: 0x95, name: "STA", bytes: 2, cycles: 4, addr_mode: AddressingMode::ZeroPageX },
        0x96 => OpCode { op: 0x96, name: "STX", bytes: 2, cycles: 4, addr_mode: AddressingMode::ZeroPageY },
        0x97 => OpCode { op: 0x97, name: "AAX", bytes: 2, cycles: 4, addr_mode: AddressingMode::ZeroPageY },
        0x98 => OpCode { op: 0x98, name: "TYA", bytes: 1, cycles: 2, addr_mode: AddressingMode::NoneAddressing },
        0x99 => OpCode { op: 0x99, name: "STA", bytes: 3, cycles: 5, addr_mode: AddressingMode::AbsoluteY },
        0x9A => OpCode { op: 0x9A, name: "TXS", bytes: 1, cycles: 2, addr_mode: AddressingMode::NoneAddressing },
        0x9B => OpCode { op: 0x9B, name: "XAS", bytes: 3, cycles: 5, addr_mode: AddressingMode::AbsoluteY },
        0x9C => OpCode { op: 0x9C, name: "SYA", bytes: 3, cycles: 5, addr_mode: AddressingMode::AbsoluteX },
        0x9D => OpCode { op: 0x9D, name: "STA", bytes: 3, cycles: 5, addr_mode: AddressingMode::AbsoluteX },
        0x9E => OpCode { op: 0x9E, name: "SXA", bytes: 3, cycles: 5, addr_mode: AddressingMode::AbsoluteY },
        _ => OpCode { op: 0x9F, name: "AXA", bytes: 3, cycles: 5, addr_mode: AddressingMode::AbsoluteY },
    }
}

/// Opcodes 0xA0 - 0xAF.
pub open spec fn row_a(code: u8) -> OpCode {
    match code {
        0xA0 => OpCode { op: 0xA0, name: "LDY", bytes: 2, cycles: 2, addr_mode: AddressingMode::Immediate },
        0xA1 => OpCode { op: 0xA1, name: "LDA", bytes: 2, cycles: 6, addr_mode: AddressingMode::IndirectX },
        0xA2 => OpCode { op: 0xA2, name: "LDX", bytes: 2, cycles: 2, addr_mode: AddressingMode::Immediate },
        0xA3 => OpCode { op: 0xA3, name: "LAX", bytes: 2, cycles: 6, addr_mode: AddressingMode::IndirectX },
        0xA4 => OpCode { op: 0xA4, name: "LDY", bytes: 2, cycles: 3, addr_mode: AddressingMode::ZeroPage },
        0xA5 => OpCode { op: 0xA5, name: "LDA", bytes: 2, cycles: 3, addr_mode: AddressingMode::ZeroPage },
        0xA6 => OpCode { op: 0xA6, name: "LDX", bytes: 2, cycles: 3, addr_mode: AddressingMode::ZeroPage },
        0xA7 => OpCode { op: 0xA7, name: "LAX", bytes: 2, cycles: 3, addr_mode: AddressingMode::ZeroPage },
        0xA8 => OpCode { op: 0xA8, name: "TAY", bytes: 1, cycles: 2, addr_mode: AddressingMode::NoneAddressing },
        0xA9 => OpCode { op: 0xA9, name: "LDA", bytes: 2, cycles: 2, addr_mode: AddressingMode::Immediate },
        0xAA => OpCode { op: 0xAA, name: "TAX", bytes: 1, cycles: 2, addr_mode: AddressingMode::NoneAddressing },
        0xAB => OpCode { op: 0xAB, name: "ATX", bytes: 2, cycles: 2, addr_mode: AddressingMode::Immediate },
        0xAC => OpCode { op: 0xAC, name: "LDY", bytes: 3, cycles: 4, addr_mode: AddressingMode::Absolute },
        0xAD => OpCode { op: 0xAD, name: "LDA", bytes: 3, cycles: 4, addr_mode: AddressingMode::Absolute },
        0xAE => OpCode { op: 0xAE, name: "LDX", bytes: 3, cycles: 4, addr_mode: AddressingMode::Absolute },
        _ => OpCode { op: 0xAF, name: "LAX", bytes: 3, cycles: 4, addr_mode: AddressingMode::Absolute },
    }
}

/// Opcodes 0xB0 - 0xBF.
pub open spec fn row_b(code: u8) -> OpCode {
    match code {
        0xB0 => OpCode { op: 0xB0, name: "BCS", bytes: 2, cycles: 2, addr_mode: AddressingMode::NoneAddressing },
        0xB1 => OpCode { op: 0xB1, name: "LDA", bytes: 2, cycles: 5, addr_mode: AddressingMode::IndirectY },
        0xB2 => OpCode { op: 0xB2, name: "KIL", bytes: 1, cycles: 2, addr_mode: AddressingMode::NoneAddressing },
        0xB3 => OpCode { op: 0xB3, name: "LAX", bytes: 2, cycles: 5, addr_mode: AddressingMode::IndirectY },
        0xB4 => OpCode { op: 0xB4, name: "LDY", bytes: 2, cycles: 4, addr_mode: AddressingMode::ZeroPageX },
        0xB5 => OpCode { op: 0xB5, name: "LDA", bytes: 2, cycles: 4, addr_mode: AddressingMode::ZeroPageX },
        0xB6 => OpCode { op: 0xB6, name: "LDX", bytes: 2, cycles: 4, addr_mode: AddressingMode::ZeroPageY },
        0xB7 => OpCode { op: 0xB7, name: "LAX", bytes: 2, cycles: 4, addr_mode: AddressingMode::ZeroPageY },
        0xB8 => OpCode { op: 0xB8, name: "CLV", bytes: 1, cycles: 2, addr_mode: AddressingMode::NoneAddressing },
        0xB9 => OpCode { op: 0xB9, name: "LDA", bytes: 3, cycles: 4, addr_mode: AddressingMode::AbsoluteY },
        0xBA => OpCode { op: 0xBA, name: "TSX", bytes: 1, cycles: 2, addr_mode: AddressingMode::NoneAddressing },
        0xBB => OpCode { op: 0xBB, name: "LAR", bytes: 3, cycles: 4, addr_mode: AddressingMode::AbsoluteY },
        0xBC => OpCode { op: 0xBC, name: "LDY", bytes: 3, cycles: 4, addr_mode: AddressingMode::AbsoluteX },
        0xBD => OpCode { op: 0xBD, name: "LDA", bytes: 3, cycles: 4, addr_mode: AddressingMode::AbsoluteX },
        0xBE => OpCode { op: 0xBE, name: "LDX", bytes: 3, cycles: 4, addr_mode: AddressingMode::AbsoluteY },
        _ => OpCode { op: 0xBF, name: "LAX", bytes: 3, cycles: 4, addr_mode: AddressingMode::AbsoluteY },
    }
}

/// Opcodes 0xC0 - 0xCF.
pub open spec fn row_c(code: u8) -> OpCode {
    match code {
        0xC0 => OpCode { op: 0xC0, name: "CPY", bytes: 2, cycles: 2, addr_mode: AddressingMode::Immediate },
        0xC1 => OpCode { op: 0xC1, name: "CMP", bytes: 2, cycles: 6, addr_mode: AddressingMode::IndirectX },
        0xC2 => OpCode { op: 0xC2, name: "DOP", bytes: 2, cycles: 2, addr_mode: AddressingMode::Immediate },
        0xC3 => OpCode { op: 0xC3, name: "DCP", bytes: 2, cycles: 8, addr_mode: AddressingMode::IndirectX },
        0xC4 => OpCode { op: 0xC4, name: "CPY", bytes: 2, cycles: 3, addr_mode: AddressingMode::ZeroPage },
        0xC5 => OpCode { op: 0xC5, name: "CMP", bytes: 2, cycles: 3, addr_mode: AddressingMode::ZeroPage },
        0xC6 => OpCode { op: 0xC6, name: "DEC", bytes: 2, cycles: 5, addr_mode: AddressingMode::ZeroPage },
        0xC7 => OpCode { op: 0xC7, name: "DCP", bytes: 2, cycles: 5, addr_mode: AddressingMode::ZeroPage },
        0xC8 => OpCode { op: 0xC8, name: "INY", bytes: 1, cycles: 2, addr_mode: AddressingMode::NoneAddressing },
        0xC9 => OpCode { op: 0xC9, name: "CMP", bytes: 2, cycles: 2, addr_mode: AddressingMode::Immediate },
        0xCA => OpCode { op: 0xCA, name: "DEX", bytes: 1, cycles: 2, addr_mode: AddressingMode::NoneAddressing },
        0xCB => OpCode { op: 0xCB, name: "AXS", bytes: 2, cycles: 2, addr_mode: AddressingMode::Immediate },
        0xCC => OpCode { op: 0xCC, name: "CPY", bytes: 3, cycles: 4, addr_mode: AddressingMode::Absolute },
        0xCD => OpCode { op: 0xCD, name: "CMP", bytes: 3, cycles: 4, addr_mode: AddressingMode::Absolute },
        0xCE => OpCode { op: 0xCE, name: "DEC", bytes: 3, cycles: 6, addr_mode: AddressingMode::Absolute },
        _ => OpCode { op: 0xCF, name: "DCP", bytes: 3, cycles: 6, addr_mode: AddressingMode::Absolute },
    }
}

/// Opcodes 0xD0 - 0xDF.
pub open spec fn row_d(code: u8) -> OpCode {
    match code {
        0xD0 => OpCode { op: 0xD0, name: "BNE", bytes: 2, cycles: 2, addr_mode: AddressingMode::NoneAddressing },
        0xD1 => OpCode { op: 0xD1, name: "CMP", bytes: 2, cycles: 5, addr_mode: AddressingMode::IndirectY },
        0xD2 => OpCode { op: 0xD2, name: "KIL", bytes: 1, cycles: 2, addr_mode: AddressingMode::NoneAddressing },
        0xD3 => OpCode { op: 0xD3, name: "DCP", bytes: 2, cycles: 8, addr_mode: AddressingMode::IndirectY },
        0xD4 => OpCode { op: 0xD4, name: "DOP", bytes: 2, cycles: 4, addr_mode: AddressingMode::ZeroPageX },
        0xD5 => OpCode { op: 0xD5, name: "CMP", bytes: 2, cycles: 4, addr_mode: AddressingMode::ZeroPageX },
        0xD6 => OpCode { op: 0xD6, name: "DEC", bytes: 2, cycles: 6, addr_mode: AddressingMode::ZeroPageX },
        0xD7 => OpCode { op: 0xD7, name: "DCP", bytes: 2, cycles: 6, addr_mode: AddressingMode::ZeroPageX },
        0xD8 => OpCode { op: 0xD8, name: "CLD", bytes: 1, cycles: 2, addr_mode: AddressingMode::NoneAddressing },
        0xD9 => OpCode { op: 0xD9, name: "CMP", bytes: 3, cycles: 4, addr_mode: AddressingMode::AbsoluteY },
        0xDA => OpCode { op: 0xDA, name: "NOP", bytes: 1, cycles: 2, addr_mode: AddressingMode::NoneAddressing },
        0xDB => OpCode { op: 0xDB, name: "DCP", bytes: 3, cycles: 7, addr_mode: AddressingMode::AbsoluteY },
        0xDC => OpCode { op: 0xDC, name: "TOP", bytes: 3, cycles: 4, addr_mode: AddressingMode::AbsoluteX },
        0xDD => OpCode { op: 0xDD, name: "CMP", bytes: 3, cycles: 4, addr_mode: AddressingMode::AbsoluteX },
        0xDE => OpCode { op: 0xDE, name: "DEC", bytes: 3, cycles: 7, addr_mode: AddressingMode::AbsoluteX },
        _ => OpCode { op: 0xDF, name: "DCP", bytes: 3, cycles: 7, addr_mode: AddressingMode::AbsoluteX },
    }
}

/// Opcodes 0xE0 - 0xEF.
pub open spec fn row_e(code: u8) -> OpCode {
    match code {
        0xE0 => OpCode { op: 0xE0, name: "CPX", bytes: 2, cycles: 2, addr_mode: AddressingMode::Immediate },
        0xE1 => OpCode { op: 0xE1, name: "SBC", bytes: 2, cycles: 6, addr_mode: AddressingMode::IndirectX },
        0xE2 => OpCode { op: 0xE2, name: "DOP", bytes: 2, cycles: 2, addr_mode: AddressingMode::Immediate },
        0xE3 => OpCode { op: 0xE3, name: "ISC", bytes: 2, cycles: 8, addr_mode: AddressingMode::IndirectX },
        0xE4 => OpCode { op: 0xE4, name: "CPX", bytes: 2, cycles: 3, addr_mode: AddressingMode::ZeroPage },
        0xE5 => OpCode { op: 0xE5, name: "SBC", bytes: 2, cycles: 3, addr_mode: AddressingMode::ZeroPage },
        0xE6 => OpCode { op: 0xE6, name: "INC", bytes: 2, cycles: 5, addr_mode: AddressingMode::ZeroPage },
        0xE7 => OpCode { op: 0xE7, name: "ISC", bytes: 2, cycles: 5, addr_mode: AddressingMode::ZeroPage },
        0xE8 => OpCode { op: 0xE8, name: "INX", bytes: 1, cycles: 2, addr_mode: AddressingMode::NoneAddressing },
        0xE9 => OpCode { op: 0xE9, name: "SBC", bytes: 2, cycles: 2, addr_mode: AddressingMode::Immediate },
        0xEA => OpCode { op: 0xEA, name: "NOP", bytes: 1, cycles: 2, addr_mode: AddressingMode::NoneAddressing },
        0xEB => OpCode { op: 0xEB, name: "SBC", bytes: 2, cycles: 2, addr_mode: AddressingMode::Immediate },
        0xEC => OpCode { op: 0xEC, name: "CPX", bytes: 3, cycles: 4, addr_mode: AddressingMode::Absolute },
        0xED => OpCode { op: 0xED, name: "SBC", bytes: 3, cycles: 4, addr_mode: AddressingMode::Absolute },
        0xEE => OpCode { op: 0xEE, name: "INC", bytes: 3, cycles: 6, addr_mode: AddressingMode::Absolute },
        _ => OpCode { op: 0xEF, name: "ISC", bytes: 3, cycles: 6, addr_mode: AddressingMode::Absolute },
    }
}

/// Opcodes 0xF0 - 0xFF.
pub open spec fn row_f(code: u8) -> OpCode {
    match code {
        0xF0 => OpCode { op: 0xF0, name: "BEQ", bytes: 2, cycles: 2, addr_mode: AddressingMode::NoneAddressing },
        0xF1 => OpCode { op: 0xF1, name: "SBC", bytes: 2, cycles: 5, addr_mode: AddressingMode::IndirectY },
        0xF2 => OpCode { op: 0xF2, name: "KIL", bytes: 1, cycles: 2, addr_mode: AddressingMode::NoneAddressing },
        0xF3 => OpCode { op: 0xF3, name: "ISC", bytes: 2, cycles: 8, addr_mode: AddressingMode::IndirectY },
        0xF4 => OpCode { op: 0xF4, name: "DOP", bytes: 2, cycles: 4, addr_mode: AddressingMode::ZeroPageX },
        0xF5 => OpCode { op: 0xF5, name: "SBC", bytes: 2, cycles: 4, addr_mode: AddressingMode::ZeroPageX },
        0xF6 => OpCode { op: 0xF6, name: "INC", bytes: 2, cycles: 6, addr_mode: AddressingMode::ZeroPageX },
        0xF7 => OpCode { op: 0xF7, name: "ISC", bytes: 2, cycles: 6, addr_mode: AddressingMode::ZeroPageX },
        0xF8 => OpCode { op: 0xF8, name: "SED", bytes: 1, cycles: 2, addr_mode: AddressingMode::NoneAddressing },
        0xF9 => OpCode { op: 0xF9, name: "SBC", bytes: 3, cycles: 4, addr_mode: AddressingMode::AbsoluteY },
        0xFA => OpCode { op: 0xFA, name: "NOP", bytes: 1, cycles: 2, addr_mode: AddressingMode::NoneAddressing },
        0xFB => OpCode { op: 0xFB, name: "ISC", bytes: 3, cycles: 7, addr_mode: AddressingMode::AbsoluteY },
        0xFC => OpCode { op: 0xFC, name: "TOP", bytes: 3, cycles: 4, addr_mode: AddressingMode::AbsoluteX },
        0xFD => OpCode { op: 0xFD, name: "SBC", bytes: 3, cycles: 4, addr_mode: AddressingMode::AbsoluteX },
        0xFE => OpCode { op: 0xFE, name: "INC", bytes: 3, cycles: 7, addr_mode: AddressingMode::AbsoluteX },
        _ => OpCode { op: 0xFF, name: "ISC", bytes: 3, cycles: 7, addr_mode: AddressingMode::AbsoluteX },
    }
}

/// Looks up an opcode byte in the table.
pub fn lookup(code: u8) -> (r: OpCode)
    ensures
        r == opcode_spec(code),
        r.op == code,
{
    reveal(opcode_spec);
    match code / 16 {
        0 => lookup_row_0(code),
        1 => lookup_row_1(code),
        2 => lookup_row_2(code),
        3 => lookup_row_3(code),
        4 => lookup_row_4(code),
        5 => lookup_row_5(code),
        6 => lookup_row_6(code),
        7 => lookup_row_7(code),
        8 => lookup_row_8(code),
        9 => lookup_row_9(code),
        10 => lookup_row_a(code),
        11 => lookup_row_b(code),
        12 => lookup_row_c(code),
        13 => lookup_row_d(code),
        14 => lookup_row_e(code),
        _ => lookup_row_f(code),
    }
}

fn lookup_row_0(code: u8) -> (r: OpCode)
    requires
        code / 16 == 0,
    ensures
        r == opcode_spec(code),
        r.op == code,
{
    reveal(opcode_spec);
    match code {
        0x00 => OpCode::new(0x00, "BRK", 1, 7, AddressingMode::NoneAddressing),
        0x01 => OpCode::new(0x01, "ORA", 2, 6, AddressingMode::IndirectX),
        0x02 => OpCode::new(0x02, "KIL", 1, 2, AddressingMode::NoneAddressing),
        0x03 => OpCode::new(0x03, "SLO", 2, 8, AddressingMode::IndirectX),
        0x04 => OpCode::new(0x04, "DOP", 2, 3, AddressingMode::ZeroPage),
        0x05 => OpCode::new(0x05, "ORA", 2, 3, AddressingMode::ZeroPage),
        0x06 => OpCode::new(0x06, "ASL", 2, 5, AddressingMode::ZeroPage),
        0x07 => OpCode::new(0x07, "SLO", 2, 5, AddressingMode::ZeroPage),
        0x08 => OpCode::new(0x08, "PHP", 1, 3, AddressingMode::NoneAddressing),
        0x09 => OpCode::new(0x09, "ORA", 2, 2, AddressingMode::Immediate),
        0x0A => OpCode::new(0x0A, "ASL", 1, 2, AddressingMode::NoneAddressing),
        0x0B => OpCode::new(0x0B, "AAC", 2, 2, AddressingMode::Immediate),
        0x0C => OpCode::new(0x0C, "TOP", 3, 4, AddressingMode::Absolute),
        0x0D => OpCode::new(0x0D, "ORA", 3, 4, AddressingMode::Absolute),
        0x0E => OpCode::new(0x0E, "ASL", 3, 6, AddressingMode::Absolute),
        _ => OpCode::new(0x0F, "SLO", 3, 6, AddressingMode::Absolute),
    }
}

fn lookup_row_1(code: u8) -> (r: OpCode)
    requires
        code / 16 == 1,
    ensures
        r == opcode_spec(code),
        r.op == code,
{
    reveal(opcode_spec);
    match code {
        0x10 => OpCode::new(0x10, "BPL", 2, 2, AddressingMode::NoneAddressing),
        0x11 => OpCode::new(0x11, "ORA", 2, 5, AddressingMode::IndirectY),
        0x12 => OpCode::new(0x12, "KIL", 1, 2, AddressingMode::NoneAddressing),
        0x13 => OpCode::new(0x13, "SLO", 2, 8, AddressingMode::IndirectY),
        0x14 => OpCode::new(0x14, "DOP", 2, 4, AddressingMode::ZeroPageX),
        0x15 => OpCode::new(0x15, "ORA", 2, 4, AddressingMode::ZeroPageX),
        0x16 => OpCode::new(0x16, "ASL", 2, 6, AddressingMode::ZeroPageX),
        0x17 => OpCode::new(0x17, "SLO", 2, 6, AddressingMode::ZeroPageX),
        0x18 => OpCode::new(0x18, "CLC", 1, 2, AddressingMode::NoneAddressing),
        0x19 => OpCode::new(0x19, "ORA", 3, 4, AddressingMode::AbsoluteY),
        0x1A => OpCode::new(0x1A, "NOP", 1, 2, AddressingMode::NoneAddressing),
        0x1B => OpCode::new(0x1B, "SLO", 3, 7, AddressingMode::AbsoluteY),
        0x1C => OpCode::new(0x1C, "TOP", 3, 4, AddressingMode::AbsoluteX),
        0x1D => OpCode::new(0x1D, "ORA", 3, 4, AddressingMode::AbsoluteX),
        0x1E => OpCode::new(0x1E, "ASL", 3, 7, AddressingMode::AbsoluteX),
        _ => OpCode::new(0x1F, "SLO", 3, 7, AddressingMode::AbsoluteX),
    }
}

fn lookup_row_2(code: u8) -> (r: OpCode)
    requires
        code / 16 == 2,
    ensures
        r == opcode_spec(code),
        r.op == code,
{
    reveal(opcode_spec);
    match code {
        0x20 => OpCode::new(0x20, "JSR", 3, 6, AddressingMode::Absolute),
        0x21 => OpCode::new(0x21, "AND", 2, 6, AddressingMode::IndirectX),
        0x22 => OpCode::new(0x22, "KIL", 1, 2, AddressingMode::NoneAddressing),
        0x23 => OpCode::new(0x23, "RLA", 2, 8, AddressingMode::IndirectX),
        0x24 => OpCode::new(0x24, "BIT", 2, 3, AddressingMode::ZeroPage),
        0x25 => OpCode::new(0x25, "AND", 2, 3, AddressingMode::ZeroPage),
        0x26 => OpCode::new(0x26, "ROL", 2, 5, AddressingMode::ZeroPage),
        0x27 => OpCode::new(0x27, "RLA", 2, 5, AddressingMode::ZeroPage),
        0x28 => OpCode::new(0x28, "PLP", 1, 4, AddressingMode::NoneAddressing),
        0x29 => OpCode::new(0x29, "AND", 2, 2, AddressingMode::Immediate),
        0x2A => OpCode::new(0x2A, "ROL", 1, 2, AddressingMode::NoneAddressing),
        0x2B => OpCode::new(0x2B, "AAC", 2, 2, AddressingMode::Immediate),
        0x2C => OpCode::new(0x2C, "BIT", 3, 4, AddressingMode::Absolute),
        0x2D => OpCode::new(0x2D, "AND", 3, 4, AddressingMode::Absolute),
        0x2E => OpCode::new(0x2E, "ROL", 3, 6, AddressingMode::Absolute),
        _ => OpCode::new(0x2F, "RLA", 3, 6, AddressingMode::Absolute),
    }
}

fn lookup_row_3(code: u8) -> (r: OpCode)
    requires
        code / 16 == 3,
    ensures
        r == opcode_spec(code),
        r.op == code,
{
    reveal(opcode_spec);
    match code {
        0x30 => OpCode::new(0x30, "BMI", 2, 2, AddressingMode::NoneAddressing),
        0x31 => OpCode::new(0x31, "AND", 2, 5, AddressingMode::IndirectY),
        0x32 => OpCode::new(0x32, "KIL", 1, 2, AddressingMode::NoneAddressing),
        0x33 => OpCode::new(0x33, "RLA", 2, 8, AddressingMode::IndirectY),
        0x34 => OpCode::new(0x34, "DOP", 2, 4, AddressingMode::ZeroPageX),
        0x35 => OpCode::new(0x35, "AND", 2, 4, AddressingMode::ZeroPageX),
        0x36 => OpCode::new(0x36, "ROL", 2, 6, AddressingMode::ZeroPageX),
        0x37 => OpCode::new(0x37, "RLA", 2, 6, AddressingMode::ZeroPageX),
        0x38 => OpCode::new(0x38, "SEC", 1, 2, AddressingMode::NoneAddressing),
        0x39 => OpCode::new(0x39, "AND", 3, 4, AddressingMode::AbsoluteY),
        0x3A => OpCode::new(0x3A, "NOP", 1, 2, AddressingMode::NoneAddressing),
        0x3B => OpCode::new(0x3B, "RLA", 3, 7, AddressingMode::AbsoluteY),
        0x3C => OpCode::new(0x3C, "TOP", 3, 4, AddressingMode::AbsoluteX),
        0x3D => OpCode::new(0x3D, "AND", 3, 4, AddressingMode::AbsoluteX),
        0x3E => OpCode::new(0x3E, "ROL", 3, 7, AddressingMode::AbsoluteX),
        _ => OpCode::new(0x3F, "RLA", 3, 7, AddressingMode::AbsoluteX),
    }
}

fn lookup_row_4(code: u8) -> (r: OpCode)
    requires
        code / 16 == 4,
    ensures
        r == opcode_spec(code),
        r.op == code,
{
    reveal(opcode_spec);
    match code {
        0x40 => OpCode::new(0x40, "RTI", 1, 6, AddressingMode::NoneAddressing),
        0x41 => OpCode::new(0x41, "EOR", 2, 6, AddressingMode::IndirectX),
        0x42 => OpCode::new(0x42, "KIL", 1, 2, AddressingMode::NoneAddressing),
        0x43 => OpCode::new(0x43, "SRE", 2, 8, AddressingMode::IndirectX),
        0x44 => OpCode::new(0x44, "DOP", 2, 3, AddressingMode::ZeroPage),
        0x45 => OpCode::new(0x45, "EOR", 2, 3, AddressingMode::ZeroPage),
        0x46 => OpCode::new(0x46, "LSR", 2, 5, AddressingMode::ZeroPage),
        0x47 => OpCode::new(0x47, "SRE", 2, 5, AddressingMode::ZeroPage),
        0x48 => OpCode::new(0x48, "PHA", 1, 3, AddressingMode::NoneAddressing),
        0x49 => OpCode::new(0x49, "EOR", 2, 2, AddressingMode::Immediate),
        0x4A => OpCode::new(0x4A, "LSR", 1, 2, AddressingMode::NoneAddressing),
        0x4B => OpCode::new(0x4B, "ASR", 2, 2, AddressingMode::Immediate),
        0x4C => OpCode::new(0x4C, "JMP", 3, 3, AddressingMode::Absolute),
        0x4D => OpCode::new(0x4D, "EOR", 3, 4, AddressingMode::Absolute),
        0x4E => OpCode::new(0x4E, "LSR", 3, 6, AddressingMode::Absolute),
        _ => OpCode::new(0x4F, "SRE", 3, 6, AddressingMode::Absolute),
    }
}

fn lookup_row_5(code: u8) -> (r: OpCode)
    requires
        code / 16 == 5,
    ensures
        r == opcode_spec(code),
        r.op == code,
{
    reveal(opcode_spec);
    match code {
        0x50 => OpCode::new(0x50, "BVC", 2, 2, AddressingMode::NoneAddressing),
        0x51 => OpCode::new(0x51, "EOR", 2, 5, AddressingMode::IndirectY),
        0x52 => OpCode::new(0x52, "KIL", 1, 2, AddressingMode::NoneAddressing),
        0x53 => OpCode::new(0x53, "SRE", 2, 8, AddressingMode::IndirectY),
        0x54 => OpCode::new(0x54, "DOP", 2, 4, AddressingMode::ZeroPageX),
        0x55 => OpCode::new(0x55, "EOR", 2, 4, AddressingMode::ZeroPageX),
        0x56 => OpCode::new(0x56, "LSR", 2, 6, AddressingMode::ZeroPageX),
        0x57 => OpCode::new(0x57, "SRE", 2, 6, AddressingMode::ZeroPageX),
        0x58 => OpCode::new(0x58, "CLI", 1, 2, AddressingMode::NoneAddressing),
        0x59 => OpCode::new(0x59, "EOR", 3, 4, AddressingMode::AbsoluteY),
        0x5A => OpCode::new(0x5A, "NOP", 1, 2, AddressingMode::NoneAddressing),
        0x5B => OpCode::new(0x5B, "SRE", 3, 7, AddressingMode::AbsoluteY),
        0x5C => OpCode::new(0x5C, "TOP", 3, 4, AddressingMode::AbsoluteX),
        0x5D => OpCode::new(0x5D, "EOR", 3, 4, AddressingMode::AbsoluteX),
        0x5E => OpCode::new(0x5E, "LSR", 3, 7, AddressingMode::AbsoluteX),
        _ => OpCode::new(0x5F, "SRE", 3, 7, AddressingMode::AbsoluteX),
    }
}

fn lookup_row_6(code: u8) -> (r: OpCode)
    requires
        code / 16 == 6,
    ensures
        r == opcode_spec(code),
        r.op == code,
{
    reveal(opcode_spec);
    match code {
        0x60 => OpCode::new(0x60, "RTS", 1, 6, AddressingMode::NoneAddressing),
        0x61 => OpCode::new(0x61, "ADC", 2, 6, AddressingMode::IndirectX),
        0x62 => OpCode::new(0x62, "KIL", 1, 2, AddressingMode::NoneAddressing),
        0x63 => OpCode::new(0x63, "RRA", 2, 8, AddressingMode::IndirectX),
        0x64 => OpCode::new(0x64, "DOP", 2, 3, AddressingMode::ZeroPage),
        0x65 => OpCode::new(0x65, "ADC", 2, 3, AddressingMode::ZeroPage),
        0x66 => OpCode::new(0x66, "ROR", 2, 5, AddressingMode::ZeroPage),
        0x67 => OpCode::new(0x67, "RRA", 2, 5, AddressingMode::ZeroPage),
        0x68 => OpCode::new(0x68, "PLA", 1, 4, AddressingMode::NoneAddressing),
        0x69 => OpCode::new(0x69, "ADC", 2, 2, AddressingMode::Immediate),
        0x6A => OpCode::new(0x6A, "ROR", 1, 2, AddressingMode::NoneAddressing),
        0x6B => OpCode::new(0x6B, "ARR", 2, 2, AddressingMode::Immediate),
        0x6C => OpCode::new(0x6C, "JMP", 3, 5, AddressingMode::IndirectX),
        0x6D => OpCode::new(0x6D, "ADC", 3, 4, AddressingMode::Absolute),
        0x6E => OpCode::new(0x6E, "ROR", 3, 6, AddressingMode::Absolute),
        _ => OpCode::new(0x6F, "RRA", 3, 6, AddressingMode::Absolute),
    }
}

fn lookup_row_7(code: u8) -> (r: OpCode)
    requires
        code / 16 == 7,
    ensures
        r == opcode_spec(code),
        r.op == code,
{
    reveal(opcode_spec);
    match code {
        0x70 => OpCode::new(0x70, "BVS", 2, 2, AddressingMode::NoneAddressing),
        0x71 => OpCode::new(0x71, "ADC", 2, 5, AddressingMode::IndirectY),
        0x72 => OpCode::new(0x72, "KIL", 1, 2, AddressingMode::NoneAddressing),
        0x73 => OpCode::new(0x73, "RRA", 2, 8, AddressingMode::IndirectY),
        0x74 => OpCode::new(0x74, "DOP", 2, 4, AddressingMode::ZeroPageX),
        0x75 => OpCode::new(0x75, "ADC", 2, 4, AddressingMode::ZeroPageX),
        0x76 => OpCode::new(0x76, "ROR", 2, 6, AddressingMode::ZeroPageX),
        0x77 => OpCode::new(0x77, "RRA", 2, 6, AddressingMode::ZeroPageX),
        0x78 => OpCode::new(0x78, "SEI", 1, 2, AddressingMode::NoneAddressing),
        0x79 => OpCode::new(0x79, "ADC", 3, 4, AddressingMode::AbsoluteY),
        0x7A => OpCode::new(0x7A, "NOP", 1, 2, AddressingMode::NoneAddressing),
        0x7B => OpCode::new(0x7B, "RRA", 3, 7, AddressingMode::AbsoluteY),
        0x7C => OpCode::new(0x7C, "TOP", 3, 4, AddressingMode::AbsoluteX),
        0x7D => OpCode::new(0x7D, "ADC", 3, 4, AddressingMode::AbsoluteX),
        0x7E => OpCode::new(0x7E, "ROR", 3, 7, AddressingMode::AbsoluteX),
        _ => OpCode::new(0x7F, "RRA", 3, 7, AddressingMode::AbsoluteX),
    }
}

fn lookup_row_8(code: u8) -> (r: OpCode)
    requires
        code / 16 == 8,
    ensures
        r == opcode_spec(code),
        r.op == code,
{
    reveal(opcode_spec);
    match code {
        0x80 => OpCode::new(0x80, "DOP", 2, 2, AddressingMode::Immediate),
        0x81 => OpCode::new(0x81, "STA", 2, 6, AddressingMode::IndirectX),
        0x82 => OpCode::new(0x82, "DOP", 2, 2, AddressingMode::Immediate),
        0x83 => OpCode::new(0x83, "AAX", 2, 6, AddressingMode::IndirectX),
        0x84 => OpCode::new(0x84, "STY", 2, 3, AddressingMode::ZeroPage),
        0x85 => OpCode::new(0x85, "STA", 2, 3, AddressingMode::ZeroPage),
        0x86 => OpCode::new(0x86, "STX", 2, 3, AddressingMode::ZeroPage),
        0x87 => OpCode::new(0x87, "AAX", 2, 3, AddressingMode::ZeroPage),
        0x88 => OpCode::new(0x88, "DEY", 1, 2, AddressingMode::NoneAddressing),
        0x89 => OpCode::new(0x89, "DOP", 2, 2, AddressingMode::Immediate),
        0x8A => OpCode::new(0x8A, "TXA", 1, 2, AddressingMode::NoneAddressing),
        0x8B => OpCode::new(0x8B, "XAA", 2, 2, AddressingMode::Immediate),
        0x8C => OpCode::new(0x8C, "STY", 3, 4, AddressingMode::Absolute),
        0x8D => OpCode::new(0x8D, "STA", 3, 4, AddressingMode::Absolute),
        0x8E => OpCode::new(0x8E, "STX", 3, 4, AddressingMode::Absolute),
        _ => OpCode::new(0x8F, "AAX", 3, 4, AddressingMode::Absolute),
    }
}

fn lookup_row_9(code: u8) -> (r: OpCode)
    requires
        code / 16 == 9,
    ensures
        r == opcode_spec(code),
        r.op == code,
{
    reveal(opcode_spec);
    match code {
        0x90 => OpCode::new(0x90, "BCC", 2, 2, AddressingMode::NoneAddressing),
        0x91 => OpCode::new(0x91, "STA", 2, 6, AddressingMode::IndirectY),
        0x92 => OpCode::new(0x92, "KIL", 1, 2, AddressingMode::NoneAddressing),
        0x93 => OpCode::new(0x93, "AXA", 2, 6, AddressingMode::IndirectY),
        0x94 => OpCode::new(0x94, "STY", 2, 4, AddressingMode::ZeroPageX),
        0x95 => OpCode::new(0x95, "STA", 2, 4, AddressingMode::ZeroPageX),
        0x96 => OpCode::new(0x96, "STX", 2, 4, AddressingMode::ZeroPageY),
        0x97 => OpCode::new(0x97, "AAX", 2, 4, AddressingMode::ZeroPageY),
        0x98 => OpCode::new(0x98, "TYA", 1, 2, AddressingMode::NoneAddressing),
        0x99 => OpCode::new(0x99, "STA", 3, 5, AddressingMode::AbsoluteY),
        0x9A => OpCode::new(0x9A, "TXS", 1, 2, AddressingMode::NoneAddressing),
        0x9B => OpCode::new(0x9B, "XAS", 3, 5, AddressingMode::AbsoluteY),
        0x9C => OpCode::new(0x9C, "SYA", 3, 5, AddressingMode::AbsoluteX),
        0x9D => OpCode::new(0x9D, "STA", 3, 5, AddressingMode::AbsoluteX),
        0x9E => OpCode::new(0x9E, "SXA", 3, 5, AddressingMode::AbsoluteY),
        _ => OpCode::new(0x9F, "AXA", 3, 5, AddressingMode::AbsoluteY),
    }
}

fn lookup_row_a(code: u8) -> (r: OpCode)
    requires
        code / 16 == 10,
    ensures
        r == opcode_spec(code),
        r.op == code,
{
    reveal(opcode_spec);
    match code {
        0xA0 => OpCode::new(0xA0, "LDY", 2, 2, AddressingMode::Immediate),
        0xA1 => OpCode::new(0xA1, "LDA", 2, 6, AddressingMode::IndirectX),
        0xA2 => OpCode::new(0xA2, "LDX", 2, 2, AddressingMode::Immediate),
        0xA3 => OpCode::new(0xA3, "LAX", 2, 6, AddressingMode::IndirectX),
        0xA4 => OpCode::new(0xA4, "LDY", 2, 3, AddressingMode::ZeroPage),
        0xA5 => OpCode::new(0xA5, "LDA", 2, 3, AddressingMode::ZeroPage),
        0xA6 => OpCode::new(0xA6, "LDX", 2, 3, AddressingMode::ZeroPage),
        0xA7 => OpCode::new(0xA7, "LAX", 2, 3, AddressingMode::ZeroPage),
        0xA8 => OpCode::new(0xA8, "TAY", 1, 2, AddressingMode::NoneAddressing),
        0xA9 => OpCode::new(0xA9, "LDA", 2, 2, AddressingMode::Immediate),
        0xAA => OpCode::new(0xAA, "TAX", 1, 2, AddressingMode::NoneAddressing),
        0xAB => OpCode::new(0xAB, "ATX", 2, 2, AddressingMode::Immediate),
        0xAC => OpCode::new(0xAC, "LDY", 3, 4, AddressingMode::Absolute),
        0xAD => OpCode::new(0xAD, "LDA", 3, 4, AddressingMode::Absolute),
        0xAE => OpCode::new(0xAE, "LDX", 3, 4, AddressingMode::Absolute),
        _ => OpCode::new(0xAF, "LAX", 3, 4, AddressingMode::Absolute),
    }
}

fn lookup_row_b(code: u8) -> (r: OpCode)
    requires
        code / 16 == 11,
    ensures
        r == opcode_spec(code),
        r.op == code,
{
    reveal(opcode_spec);
    match code {
        0xB0 => OpCode::new(0xB0, "BCS", 2, 2, AddressingMode::NoneAddressing),
        0xB1 => OpCode::new(0xB1, "LDA", 2, 5, AddressingMode::IndirectY),
        0xB2 => OpCode::new(0xB2, "KIL", 1, 2, AddressingMode::NoneAddressing),
        0xB3 => OpCode::new(0xB3, "LAX", 2, 5, AddressingMode::IndirectY),
        0xB4 => OpCode::new(0xB4, "LDY", 2, 4, AddressingMode::ZeroPageX),
        0xB5 => OpCode::new(0xB5, "LDA", 2, 4, AddressingMode::ZeroPageX),
        0xB6 => OpCode::new(0xB6, "LDX", 2, 4, AddressingMode::ZeroPageY),
        0xB7 => OpCode::new(0xB7, "LAX", 2, 4, AddressingMode::ZeroPageY),
        0xB8 => OpCode::new(0xB8, "CLV", 1, 2, AddressingMode::NoneAddressing),
        0xB9 => OpCode::new(0xB9, "LDA", 3, 4, AddressingMode::AbsoluteY),
        0xBA => OpCode::new(0xBA, "TSX", 1, 2, AddressingMode::NoneAddressing),
        0xBB => OpCode::new(0xBB, "LAR", 3, 4, AddressingMode::AbsoluteY),
        0xBC => OpCode::new(0xBC, "LDY", 3, 4, AddressingMode::AbsoluteX),
        0xBD => OpCode::new(0xBD, "LDA", 3, 4, AddressingMode::AbsoluteX),
        0xBE => OpCode::new(0xBE, "LDX", 3, 4, AddressingMode::AbsoluteY),
        _ => OpCode::new(0xBF, "LAX", 3, 4, AddressingMode::AbsoluteY),
    }
}

fn lookup_row_c(code: u8) -> (r: OpCode)
    requires
        code / 16 == 12,
    ensures
        r == opcode_spec(code),
        r.op == code,
{
    reveal(opcode_spec);
    match code {
        0xC0 => OpCode::new(0xC0, "CPY", 2, 2, AddressingMode::Immediate),
        0xC1 => OpCode::new(0xC1, "CMP", 2, 6, AddressingMode::IndirectX),
        0xC2 => OpCode::new(0xC2, "DOP", 2, 2, AddressingMode::Immediate),
        0xC3 => OpCode::new(0xC3, "DCP", 2, 8, AddressingMode::IndirectX),
        0xC4 => OpCode::new(0xC4, "CPY", 2, 3, AddressingMode::ZeroPage),
        0xC5 => OpCode::new(0xC5, "CMP", 2, 3, AddressingMode::ZeroPage),
        0xC6 => OpCode::new(0xC6, "DEC", 2, 5, AddressingMode::ZeroPage),
        0xC7 => OpCode::new(0xC7, "DCP", 2, 5, AddressingMode::ZeroPage),
        0xC8 => OpCode::new(0xC8, "INY", 1, 2, AddressingMode::NoneAddressing),
        0xC9 => OpCode::new(0xC9, "CMP", 2, 2, AddressingMode::Immediate),
        0xCA => OpCode::new(0xCA, "DEX", 1, 2, AddressingMode::NoneAddressing),
        0xCB => OpCode::new(0xCB, "AXS", 2, 2, AddressingMode::Immediate),
        0xCC => OpCode::new(0xCC, "CPY", 3, 4, AddressingMode::Absolute),
        0xCD => OpCode::new(0xCD, "CMP", 3, 4, AddressingMode::Absolute),
        0xCE => OpCode::new(0xCE, "DEC", 3, 6, AddressingMode::Absolute),
        _ => OpCode::new(0xCF, "DCP", 3, 6, AddressingMode::Absolute),
    }
}

fn lookup_row_d(code: u8) -> (r: OpCode)
    requires
        code / 16 == 13,
    ensures
        r == opcode_spec(code),
        r.op == code,
{
    reveal(opcode_spec);
    match code {
        0xD0 => OpCode::new(0xD0, "BNE", 2, 2, AddressingMode::NoneAddressing),
        0xD1 => OpCode::new(0xD1, "CMP", 2, 5, AddressingMode::IndirectY),
        0xD2 => OpCode::new(0xD2, "KIL", 1, 2, AddressingMode::NoneAddressing),
        0xD3 => OpCode::new(0xD3, "DCP", 2, 8, AddressingMode::IndirectY),
        0xD4 => OpCode::new(0xD4, "DOP", 2, 4, AddressingMode::ZeroPageX),
        0xD5 => OpCode::new(0xD5, "CMP", 2, 4, AddressingMode::ZeroPageX),
        0xD6 => OpCode::new(0xD6, "DEC", 2, 6, AddressingMode::ZeroPageX),
        0xD7 => OpCode::new(0xD7, "DCP", 2, 6, AddressingMode::ZeroPageX),
        0xD8 => OpCode::new(0xD8, "CLD", 1, 2, AddressingMode::NoneAddressing),
        0xD9 => OpCode::new(0xD9, "CMP", 3, 4, AddressingMode::AbsoluteY),
        0xDA => OpCode::new(0xDA, "NOP", 1, 2, AddressingMode::NoneAddressing),
        0xDB => OpCode::new(0xDB, "DCP", 3, 7, AddressingMode::AbsoluteY),
        0xDC => OpCode::new(0xDC, "TOP", 3, 4, AddressingMode::AbsoluteX),
        0xDD => OpCode::new(0xDD, "CMP", 3, 4, AddressingMode::AbsoluteX),
        0xDE => OpCode::new(0xDE, "DEC", 3, 7, AddressingMode::AbsoluteX),
        _ => OpCode::new(0xDF, "DCP", 3, 7, AddressingMode::AbsoluteX),
    }
}

fn lookup_row_e(code: u8) -> (r: OpCode)
    requires
        code / 16 == 14,
    ensures
        r == opcode_spec(code),
        r.op == code,
{
    reveal(opcode_spec);
    match code {
        0xE0 => OpCode::new(0xE0, "CPX", 2, 2, AddressingMode::Immediate),
        0xE1 => OpCode::new(0xE1, "SBC", 2, 6, AddressingMode::IndirectX),
        0xE2 => OpCode::new(0xE2, "DOP", 2, 2, AddressingMode::Immediate),
        0xE3 => OpCode::new(0xE3, "ISC", 2, 8, AddressingMode::IndirectX),
        0xE4 => OpCode::new(0xE4, "CPX", 2, 3, AddressingMode::ZeroPage),
        0xE5 => OpCode::new(0xE5, "SBC", 2, 3, AddressingMode::ZeroPage),
        0xE6 => OpCode::new(0xE6, "INC", 2, 5, AddressingMode::ZeroPage),
        0xE7 => OpCode::new(0xE7, "ISC", 2, 5, AddressingMode::ZeroPage),
        0xE8 => OpCode::new(0xE8, "INX", 1, 2, AddressingMode::NoneAddressing),
        0xE9 => OpCode::new(0xE9, "SBC", 2, 2, AddressingMode::Immediate),
        0xEA => OpCode::new(0xEA, "NOP", 1, 2, AddressingMode::NoneAddressing),
        0xEB => OpCode::new(0xEB, "SBC", 2, 2, AddressingMode::Immediate),
        0xEC => OpCode::new(0xEC, "CPX", 3, 4, AddressingMode::Absolute),
        0xED => OpCode::new(0xED, "SBC", 3, 4, AddressingMode::Absolute),
        0xEE => OpCode::new(0xEE, "INC", 3, 6, AddressingMode::Absolute),
        _ => OpCode::new(0xEF, "ISC", 3, 6, AddressingMode::Absolute),
    }
}

fn lookup_row_f(code: u8) -> (r: OpCode)
    requires
        code / 16 == 15,
    ensures
        r == opcode_spec(code),
        r.op == code,
{
    reveal(opcode_spec);
    match code {
        0xF0 => OpCode::new(0xF0, "BEQ", 2, 2, AddressingMode::NoneAddressing),
        0xF1 => OpCode::new(0xF1, "SBC", 2, 5, AddressingMode::IndirectY),
        0xF2 => OpCode::new(0xF2, "KIL", 1, 2, AddressingMode::NoneAddressing),
        0xF3 => OpCode::new(0xF3, "ISC", 2, 8, AddressingMode::IndirectY),
        0xF4 => OpCode::new(0xF4, "DOP", 2, 4, AddressingMode::ZeroPageX),
        0xF5 => OpCode::new(0xF5, "SBC", 2, 4, AddressingMode::ZeroPageX),
        0xF6 => OpCode::new(0xF6, "INC", 2, 6, AddressingMode::ZeroPageX),
        0xF7 => OpCode::new(0xF7, "ISC", 2, 6, AddressingMode::ZeroPageX),
        0xF8 => OpCode::new(0xF8, "SED", 1, 2, AddressingMode::NoneAddressing),
        0xF9 => OpCode::new(0xF9, "SBC", 3, 4, AddressingMode::AbsoluteY),
        0xFA => OpCode::new(0xFA, "NOP", 1, 2, AddressingMode::NoneAddressing),
        0xFB => OpCode::new(0xFB, "ISC", 3, 7, AddressingMode::AbsoluteY),
        0xFC => OpCode::new(0xFC, "TOP", 3, 4, AddressingMode::AbsoluteX),
        0xFD => OpCode::new(0xFD, "SBC", 3, 4, AddressingMode::AbsoluteX),
        0xFE => OpCode::new(0xFE, "INC", 3, 7, AddressingMode::AbsoluteX),
        _ => OpCode::new(0xFF, "ISC", 3, 7, AddressingMode::AbsoluteX),
    }
}

} // verus!
