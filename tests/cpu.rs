use nes_emulator::bus::{Bus, BusError};
use nes_emulator::cartridge::{Mirroring, Rom};
use nes_emulator::cpu::{AddressingMode, CpuError, CpuFlags, Flow, CPU};

fn rom() -> Rom {
    Rom {
        prg_rom: vec![1; 2 * 0x4000],
        chr_rom: vec![2; 0x2000],
        screen_mirroring: Mirroring::HORIZONTAL,
    }
}

/// A processor with `program` in RAM at 0x0600 and the program counter on it.
fn load(program: &[u8]) -> CPU {
    let mut bus = Bus::new(rom());
    for (i, b) in program.iter().enumerate() {
        bus.write_mem(0x0600 + i as u16, *b).unwrap();
    }
    let mut cpu = CPU::new(bus);
    cpu.program_counter = 0x0600;
    cpu
}

fn load_and_run(program: &[u8]) -> CPU {
    let mut cpu = load(program);
    assert_eq!(cpu.run(), Ok(Flow::Break));
    cpu
}

#[test]
fn adc_round_trip_to_zero() {
    let cpu = load_and_run(&[0xa9, 0x01, 0x69, 0xff, 0x00]);
    assert_eq!(cpu.reg_a, 0x00);
    assert!(cpu.status_reg.carry);
    assert!(!cpu.status_reg.overflow);
    assert!(!cpu.status_reg.negative);
    assert!(cpu.status_reg.zero);
}

#[test]
fn adc_overflow() {
    let cpu = load_and_run(&[0xa9, 0x50, 0x69, 0x50, 0x00]);
    assert_eq!(cpu.reg_a, 0xa0);
    assert!(!cpu.status_reg.carry);
    assert!(cpu.status_reg.negative);
    assert!(cpu.status_reg.overflow);
}

#[test]
fn adc_overflow_with_carry_out() {
    let mut cpu = load(&[0xa9, 0x90, 0x65, 0x01, 0x00]);
    cpu.write_mem(0x0001, 0xd0).unwrap();
    cpu.run().unwrap();
    assert_eq!(cpu.reg_a, 0x60);
    assert!(cpu.status_reg.carry);
    assert!(!cpu.status_reg.negative);
    assert!(cpu.status_reg.overflow);
}

#[test]
fn sbc_overflow() {
    // SEC; LDA #$50; SBC #$B0
    let cpu = load_and_run(&[0x38, 0xa9, 0x50, 0xe9, 0xb0, 0x00]);
    assert_eq!(cpu.reg_a, 0xa0);
    assert!(cpu.status_reg.overflow);
    assert!(cpu.status_reg.negative);
    assert!(!cpu.status_reg.zero);
}

#[test]
fn sbc_with_carry_clear_borrows_one() {
    let cpu = load_and_run(&[0xa9, 0x50, 0xe9, 0xb0, 0x00]);
    assert_eq!(cpu.reg_a, 0x9f);
    assert!(cpu.status_reg.overflow);
    assert!(cpu.status_reg.negative);
}

#[test]
fn sbc_without_overflow() {
    let mut cpu = load(&[0xa9, 0x50, 0xe5, 0x01, 0x00]);
    cpu.write_mem(0x0001, 0xf0).unwrap();
    cpu.run().unwrap();
    assert_eq!(cpu.reg_a, 0x5f);
    assert!(!cpu.status_reg.overflow);
    assert!(!cpu.status_reg.carry);
}

#[test]
fn indirect_y_reads_after_adding_y() {
    let mut cpu = load(&[0xa0, 0x01, 0xb1, 0xf0, 0x00]);
    cpu.write_mem(0x00f0, 0xf1).unwrap();
    cpu.write_mem(0x00f1, 0x10).unwrap();
    cpu.write_mem(0x10f2, 0x55).unwrap();
    cpu.run().unwrap();
    assert_eq!(cpu.reg_a, 0x55);
}

#[test]
fn indirect_y_address_resolution() {
    let mut cpu = load(&[0xf0]);
    cpu.write_mem(0x00f0, 0xf1).unwrap();
    cpu.write_mem(0x00f1, 0x10).unwrap();
    cpu.reg_y = 1;
    assert_eq!(cpu.get_address(&AddressingMode::IndirectY), Ok(0x10f2));
    assert_eq!(cpu.program_counter, 0x0600);
}

#[test]
fn indirect_x_adds_before_dereference() {
    let mut cpu = load(&[0xa2, 0x01, 0xa1, 0xf0, 0x00]);
    cpu.write_mem(0x0705, 0x55).unwrap();
    cpu.write_mem(0x00f1, 0x05).unwrap();
    cpu.write_mem(0x00f2, 0x07).unwrap();
    cpu.run().unwrap();
    assert_eq!(cpu.reg_a, 0x55);
}

#[test]
fn zero_page_x_wraps_in_zero_page() {
    let mut cpu = load(&[0xa2, 0x02, 0xb5, 0xff, 0x00]);
    cpu.write_mem(0x0001, 0x77).unwrap();
    cpu.run().unwrap();
    assert_eq!(cpu.reg_a, 0x77);
}

#[test]
fn absolute_x_and_y() {
    let mut cpu = load(&[0xa2, 0x01, 0xbd, 0xf0, 0x10, 0xaa, 0xa0, 0x02, 0xb9, 0xf0, 0x10, 0x00]);
    cpu.write_mem(0x10f1, 0x55).unwrap();
    cpu.write_mem(0x10f2, 0x66).unwrap();
    cpu.run().unwrap();
    assert_eq!(cpu.reg_x, 0x55);
    assert_eq!(cpu.reg_a, 0x66);
}

#[test]
fn none_addressing_is_refused() {
    let mut cpu = load(&[0x00]);
    assert_eq!(cpu.get_address(&AddressingMode::NoneAddressing), Err(CpuError::NoneAddressing));
}

#[test]
fn zero_and_negative_follow_loads() {
    let cpu = load_and_run(&[0xa9, 0x00, 0x00]);
    assert!(cpu.status_reg.zero);
    assert!(!cpu.status_reg.negative);
    let cpu = load_and_run(&[0xa2, 0x80, 0x00]);
    assert!(!cpu.status_reg.zero);
    assert!(cpu.status_reg.negative);
    let cpu = load_and_run(&[0xa0, 0x05, 0x00]);
    assert_eq!(cpu.reg_y, 0x05);
    assert!(!cpu.status_reg.zero);
    assert!(!cpu.status_reg.negative);
}

#[test]
fn stack_round_trip() {
    let mut cpu = load(&[0x00]);
    let sp = cpu.stack_ptr;
    cpu.push_stack_u16(0xa1b8);
    assert_eq!(cpu.stack_ptr, sp.wrapping_sub(2));
    assert_eq!(cpu.pop_stack_u16(), 0xa1b8);
    assert_eq!(cpu.stack_ptr, sp);
    cpu.push_stack(0xa1);
    assert_eq!(cpu.pop_stack(), 0xa1);
    assert_eq!(cpu.stack_ptr, sp);
}

#[test]
fn stack_pointer_wraps_in_its_page() {
    let mut cpu = load(&[0x00]);
    cpu.stack_ptr = 0x00;
    cpu.push_stack(0x42);
    assert_eq!(cpu.stack_ptr, 0xff);
    assert_eq!(cpu.read_mem(0x0100), Ok(0x42));
    assert_eq!(cpu.pop_stack(), 0x42);
    assert_eq!(cpu.stack_ptr, 0x00);
}

#[test]
fn branch_not_taken_advances_two() {
    // CLC; BCS +5
    let mut cpu = load(&[0x18, 0xb0, 0x05]);
    assert_eq!(cpu.step(), Ok(Flow::Continue));
    assert_eq!(cpu.step(), Ok(Flow::Continue));
    assert_eq!(cpu.program_counter, 0x0603);
}

#[test]
fn branch_taken_minus_two_targets_itself() {
    // SEC; BCS -2
    let mut cpu = load(&[0x38, 0xb0, 0xfe]);
    cpu.step().unwrap();
    assert_eq!(cpu.program_counter, 0x0601);
    cpu.step().unwrap();
    assert_eq!(cpu.program_counter, 0x0601);
}

#[test]
fn branching_skips_bytes() {
    let cpu = load_and_run(&[0xa0, 0x10, 0x38, 0xb0, 0x02, 0x00, 0x00, 0xc8, 0x00]);
    assert_eq!(cpu.reg_y, 0x11);
}

#[test]
fn jsr_rts_returns_after_call() {
    // JSR $0620; BRK ... at 0x0620: INY; RTS
    let mut cpu = load(&[0xa0, 0x10, 0x20, 0x20, 0x06, 0x00]);
    cpu.write_mem(0x0620, 0xc8).unwrap();
    cpu.write_mem(0x0621, 0x60).unwrap();
    let sp = cpu.stack_ptr;
    cpu.step().unwrap();
    cpu.step().unwrap();
    assert_eq!(cpu.program_counter, 0x0620);
    assert_eq!(cpu.stack_ptr, sp.wrapping_sub(2));
    cpu.step().unwrap();
    cpu.step().unwrap();
    assert_eq!(cpu.program_counter, 0x0605);
    assert_eq!(cpu.stack_ptr, sp);
    assert_eq!(cpu.run(), Ok(Flow::Break));
    assert_eq!(cpu.reg_y, 0x11);
}

#[test]
fn jmp_indirect_page_boundary() {
    let mut cpu = load(&[0x6c, 0xff, 0x02]);
    cpu.write_mem(0x02ff, 0x34).unwrap();
    cpu.write_mem(0x0300, 0x99).unwrap();
    cpu.write_mem(0x0200, 0x12).unwrap();
    cpu.step().unwrap();
    assert_eq!(cpu.program_counter, 0x1234);
}

#[test]
fn php_plp_round_trip() {
    let mut cpu = load(&[0x38, 0x08, 0x18, 0x28]);
    for _ in 0..4 {
        cpu.step().unwrap();
    }
    assert!(cpu.status_reg.carry);
    assert!(!cpu.status_reg.break_flag);
    assert!(cpu.status_reg.break2);
}

#[test]
fn php_pushes_break_bits() {
    let mut cpu = load(&[0x08]);
    cpu.step().unwrap();
    assert_eq!(cpu.read_mem(0x01fd), Ok(0x34));
}

#[test]
fn rti_restores_flags_and_address() {
    let mut cpu = load(&[0x40]);
    cpu.push_stack_u16(0x1234);
    cpu.push_stack(0b1101_0011);
    cpu.step().unwrap();
    assert_eq!(cpu.program_counter, 0x1234);
    assert_eq!(cpu.status_reg.bits(), 0b1110_0011);
}

#[test]
fn compare_family() {
    let cpu = load_and_run(&[0xa9, 0xff, 0xc9, 0xfe, 0x00]);
    assert!(!cpu.status_reg.negative && !cpu.status_reg.zero && cpu.status_reg.carry);
    let cpu = load_and_run(&[0xa9, 0xfe, 0xc9, 0xfe, 0x00]);
    assert!(!cpu.status_reg.negative && cpu.status_reg.zero && cpu.status_reg.carry);
    let cpu = load_and_run(&[0xa9, 0xfd, 0xc9, 0xfe, 0x00]);
    assert!(cpu.status_reg.negative && !cpu.status_reg.zero && !cpu.status_reg.carry);
    let cpu = load_and_run(&[0xa2, 0xfe, 0xe0, 0xff, 0x00]);
    assert!(cpu.status_reg.negative && !cpu.status_reg.zero && !cpu.status_reg.carry);
    let cpu = load_and_run(&[0xa0, 0xfe, 0xc0, 0xff, 0x00]);
    assert!(cpu.status_reg.negative && !cpu.status_reg.zero && !cpu.status_reg.carry);
}

#[test]
fn bit_test() {
    let mut cpu = load(&[0xa9, 0b1101_0101, 0x24, 0x01, 0x00]);
    cpu.write_mem(0x01, 0b1101_0110).unwrap();
    cpu.run().unwrap();
    assert!(cpu.status_reg.negative);
    assert!(cpu.status_reg.overflow);
    assert!(!cpu.status_reg.zero);
    let mut cpu = load(&[0xa9, 0b0110_0001, 0x24, 0x01, 0x00]);
    cpu.write_mem(0x01, 0b1001_0110).unwrap();
    cpu.run().unwrap();
    assert!(cpu.status_reg.negative);
    assert!(cpu.status_reg.zero);
}

#[test]
fn logic_instructions() {
    let cpu = load_and_run(&[0xa9, 0b1001_0101, 0x29, 0b1101_1011, 0x00]);
    assert_eq!(cpu.reg_a, 0b1001_0001);
    assert!(cpu.status_reg.negative);
    let cpu = load_and_run(&[0xa9, 0b1001_0101, 0x49, 0b0101_1011, 0x00]);
    assert_eq!(cpu.reg_a, 0b1100_1110);
    let cpu = load_and_run(&[0xa9, 0b1001_0101, 0x09, 0b0101_1011, 0x00]);
    assert_eq!(cpu.reg_a, 0b1101_1111);
}

#[test]
fn shifts_and_rotates() {
    let cpu = load_and_run(&[0xa9, 0b0101_0011, 0x0a, 0x00]);
    assert_eq!(cpu.reg_a, 0b1010_0110);
    assert!(cpu.status_reg.negative && !cpu.status_reg.carry);
    let cpu = load_and_run(&[0xa9, 0b0101_0011, 0x4a, 0x00]);
    assert_eq!(cpu.reg_a, 0b0010_1001);
    assert!(cpu.status_reg.carry);
    let cpu = load_and_run(&[0xa9, 0b0101_0011, 0x2a, 0x00]);
    assert_eq!(cpu.reg_a, 0b1010_0110);
    let cpu = load_and_run(&[0xa9, 0b0101_0010, 0x6a, 0x00]);
    assert_eq!(cpu.reg_a, 0b0010_1001);
    assert!(!cpu.status_reg.carry);
    let mut cpu = load(&[0x38, 0x26, 0x01, 0x00]);
    cpu.write_mem(0x01, 0b1101_0011).unwrap();
    cpu.run().unwrap();
    assert_eq!(cpu.read_mem(0x01), Ok(0b1010_0111));
    assert!(cpu.status_reg.carry);
    let mut cpu = load(&[0x38, 0x66, 0x01, 0x00]);
    cpu.write_mem(0x01, 0b1101_0011).unwrap();
    cpu.run().unwrap();
    assert_eq!(cpu.read_mem(0x01), Ok(0b1110_1001));
    assert!(cpu.status_reg.carry);
    let mut cpu = load(&[0x06, 0x01, 0x46, 0x02, 0x00]);
    cpu.write_mem(0x01, 0b0101_0011).unwrap();
    cpu.write_mem(0x02, 0b0101_0011).unwrap();
    cpu.run().unwrap();
    assert_eq!(cpu.read_mem(0x01), Ok(0b1010_0110));
    assert_eq!(cpu.read_mem(0x02), Ok(0b0010_1001));
}

#[test]
fn increments_and_decrements() {
    let cpu = load_and_run(&[0xa9, 0xc0, 0xaa, 0xe8, 0x00]);
    assert_eq!(cpu.reg_x, 0xc1);
    let cpu = load_and_run(&[0xa2, 0xff, 0xe8, 0xe8, 0x00]);
    assert_eq!(cpu.reg_x, 1);
    let cpu = load_and_run(&[0xa0, 0x00, 0x88, 0x00]);
    assert_eq!(cpu.reg_y, 0xff);
    assert!(cpu.status_reg.negative);
    let mut cpu = load(&[0xe6, 0x01, 0xc6, 0x02, 0x00]);
    cpu.write_mem(0x01, 0xff).unwrap();
    cpu.write_mem(0x02, 0x01).unwrap();
    cpu.run().unwrap();
    assert_eq!(cpu.read_mem(0x01), Ok(0x00));
    assert_eq!(cpu.read_mem(0x02), Ok(0x00));
    assert!(cpu.status_reg.zero);
}

#[test]
fn stores() {
    let mut cpu =
        load_and_run(&[0xa9, 0x01, 0x85, 0x02, 0xa2, 0x03, 0x86, 0x04, 0xa0, 0x05, 0x84, 0x06, 0x00]);
    assert_eq!(cpu.read_mem(0x02), Ok(0x01));
    assert_eq!(cpu.read_mem(0x04), Ok(0x03));
    assert_eq!(cpu.read_mem(0x06), Ok(0x05));
}

#[test]
fn undocumented_lax_and_dcp() {
    let mut cpu = load(&[0xa7, 0x10, 0xa9, 0x05, 0xc7, 0x11, 0x00]);
    cpu.write_mem(0x10, 0x83).unwrap();
    cpu.write_mem(0x11, 0x06).unwrap();
    cpu.run().unwrap();
    assert_eq!(cpu.reg_x, 0x83);
    assert_eq!(cpu.read_mem(0x11), Ok(0x05));
    assert!(cpu.status_reg.zero);
    assert!(cpu.status_reg.carry);
}

#[test]
fn undocumented_aac_sets_carry_from_bit_seven() {
    let cpu = load_and_run(&[0xa9, 0xf0, 0x0b, 0x80, 0x00]);
    assert_eq!(cpu.reg_a, 0x80);
    assert!(cpu.status_reg.carry);
    assert!(cpu.status_reg.negative);
}

#[test]
fn undocumented_isc_increments_then_subtracts() {
    let mut cpu = load(&[0x38, 0xa9, 0x10, 0xe7, 0x20, 0x00]);
    cpu.write_mem(0x20, 0x04).unwrap();
    cpu.run().unwrap();
    assert_eq!(cpu.read_mem(0x20), Ok(0x05));
    assert_eq!(cpu.reg_a, 0x0b);
}

#[test]
fn undocumented_sxa_advances_over_operands() {
    let mut cpu = load(&[0xa2, 0xff, 0xa0, 0x00, 0x9e, 0x00, 0x02, 0x00]);
    cpu.run().unwrap();
    assert_eq!(cpu.read_mem(0x0200), Ok(0x03));
    assert_eq!(cpu.program_counter, 0x0608);
}

#[test]
fn halting_opcode_stops_without_break() {
    let mut cpu = load(&[0xe8, 0x02, 0xe8]);
    assert_eq!(cpu.run(), Ok(Flow::Halt));
    assert_eq!(cpu.reg_x, 1);
    assert!(!cpu.status_reg.break_flag);
}

#[test]
fn brk_sets_break_flag() {
    let mut cpu = load(&[0x00]);
    assert_eq!(cpu.step(), Ok(Flow::Break));
    assert!(cpu.status_reg.break_flag);
}

#[test]
fn store_to_rom_is_a_fault() {
    let mut cpu = load(&[0x8d, 0x00, 0x80]);
    assert_eq!(cpu.run(), Err(CpuError::Bus(BusError::RomWrite(0x8000))));
}

#[test]
fn reset_loads_vector() {
    let mut prg = vec![0; 0x4000];
    prg[0x3ffc] = 0x34;
    prg[0x3ffd] = 0xc2;
    let bus = Bus::new(Rom { prg_rom: prg, chr_rom: vec![], screen_mirroring: Mirroring::VERTICAL });
    let mut cpu = CPU::new(bus);
    cpu.reg_a = 9;
    cpu.reg_x = 9;
    cpu.reg_y = 9;
    cpu.status_reg = CpuFlags::from_bits(0xff);
    cpu.reset();
    assert_eq!(cpu.program_counter, 0xc234);
    assert_eq!((cpu.reg_a, cpu.reg_x, cpu.reg_y), (0, 0, 0));
    assert_eq!(cpu.status_reg.bits(), 0x24);
}

#[test]
fn flags_byte_round_trip() {
    for b in 0..=255u8 {
        assert_eq!(CpuFlags::from_bits(b).bits(), b);
    }
}

#[test]
fn callback_sees_each_instruction() {
    let mut cpu = load(&[0xe8, 0xe8, 0xe8, 0x00]);
    let mut seen: Vec<u16> = vec![];
    let r = cpu.run_with_callback(|c| seen.push(c.program_counter));
    assert_eq!(r, Ok(Flow::Break));
    assert_eq!(seen, vec![0x0600, 0x0601, 0x0602, 0x0603]);
}

#[test]
fn write_mem_u16_is_little_endian() {
    let mut cpu = load(&[0x00]);
    cpu.write_mem_u16(0x0010, 0xfa6e).unwrap();
    assert_eq!(cpu.read_mem(0x0010), Ok(0x6e));
    assert_eq!(cpu.read_mem(0x0011), Ok(0xfa));
    assert_eq!(cpu.read_mem_u16(0x0010), Ok(0xfa6e));
}

#[test]
fn undocumented_dcp_clears_carry_when_below() {
    // SEC; LDA #$00; DCP $11 with 5 there
    let mut cpu = load(&[0x38, 0xa9, 0x00, 0xc7, 0x11, 0x00]);
    cpu.write_mem(0x11, 0x05).unwrap();
    cpu.run().unwrap();
    assert_eq!(cpu.read_mem(0x11), Ok(0x04));
    assert!(!cpu.status_reg.carry);
    assert!(cpu.status_reg.negative);
}

#[test]
fn undocumented_arr_flags_from_bits_six_and_five() {
    // SEC; LDA #$FF; ARR #$C0: (0xC0 >> 1) | 0x80 = 0xE0
    let cpu = load_and_run(&[0x38, 0xa9, 0xff, 0x6b, 0xc0, 0x00]);
    assert_eq!(cpu.reg_a, 0xe0);
    assert!(cpu.status_reg.carry);
    assert!(!cpu.status_reg.overflow);
    // CLC; LDA #$FF; ARR #$40: 0x40 >> 1 = 0x20
    let cpu = load_and_run(&[0x18, 0xa9, 0xff, 0x6b, 0x40, 0x00]);
    assert_eq!(cpu.reg_a, 0x20);
    assert!(!cpu.status_reg.carry);
    assert!(cpu.status_reg.overflow);
}
