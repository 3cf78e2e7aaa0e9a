use nes_emulator::bus::Bus;
use nes_emulator::cartridge::{Mirroring, Rom};
use nes_emulator::cpu::CPU;
use nes_emulator::log::log;

fn test_rom() -> Rom {
    Rom {
        prg_rom: vec![1; 2 * 0x4000],
        chr_rom: vec![2; 0x2000],
        screen_mirroring: Mirroring::HORIZONTAL,
    }
}

#[test]
fn test_format_trace() {
    let mut bus = Bus::new(test_rom());
    bus.write_mem(100, 0xa2).unwrap();
    bus.write_mem(101, 0x01).unwrap();
    bus.write_mem(102, 0xca).unwrap();
    bus.write_mem(103, 0x88).unwrap();
    bus.write_mem(104, 0x00).unwrap();

    let mut cpu = CPU::new(bus);
    cpu.program_counter = 0x64;
    cpu.reg_a = 1;
    cpu.reg_x = 2;
    cpu.reg_y = 3;
    let mut result: Vec<String> = vec![];
    cpu.run_with_callback(|cpu| {
        result.push(log(cpu));
    })
    .unwrap();
    assert_eq!(
        "0064  A2 01     LDX #$01                        A:01 X:02 Y:03 P:24 SP:FD",
        result[0]
    );
    assert_eq!(
        "0066  CA        DEX                             A:01 X:01 Y:03 P:24 SP:FD",
        result[1]
    );
    assert_eq!(
        "0067  88        DEY                             A:01 X:00 Y:03 P:26 SP:FD",
        result[2]
    );
}

#[test]
fn test_format_mem_access() {
    let mut bus = Bus::new(test_rom());
    // ORA ($33), Y
    bus.write_mem(100, 0x11).unwrap();
    bus.write_mem(101, 0x33).unwrap();

    //data
    bus.write_mem(0x33, 00).unwrap();
    bus.write_mem(0x34, 04).unwrap();

    //target cell
    bus.write_mem(0x400, 0xAA).unwrap();

    let mut cpu = CPU::new(bus);
    cpu.program_counter = 0x64;
    cpu.reg_y = 0;
    let mut result: Vec<String> = vec![];
    cpu.run_with_callback(|cpu| {
        result.push(log(cpu));
    })
    .unwrap();
    assert_eq!(
        "0064  11 33     ORA ($33),Y = 0400 @ 0400 = AA  A:00 X:00 Y:00 P:24 SP:FD",
        result[0]
    );
}

#[test]
fn trace_of_absolute_jump_and_branch() {
    let mut bus = Bus::new(test_rom());
    // JMP $0010 at 0x0000; BNE -2 at 0x0010
    bus.write_mem(0x00, 0x4C).unwrap();
    bus.write_mem(0x01, 0x10).unwrap();
    bus.write_mem(0x02, 0x00).unwrap();
    bus.write_mem(0x10, 0xD0).unwrap();
    bus.write_mem(0x11, 0xFE).unwrap();
    let mut cpu = CPU::new(bus);
    assert_eq!(
        "0000  4C 10 00  JMP $0010                       A:00 X:00 Y:00 P:24 SP:FD",
        log(&cpu)
    );
    cpu.program_counter = 0x10;
    assert_eq!(
        "0010  D0 FE     BNE $0010                       A:00 X:00 Y:00 P:24 SP:FD",
        log(&cpu)
    );
}
