use nes_emulator::bus::{Bus, BusError};
use nes_emulator::cartridge::{Mirroring, Rom, RomError};
use nes_emulator::ppu::nes_ppu::PpuError;

fn rom_with(prg: Vec<u8>) -> Rom {
    Rom { prg_rom: prg, chr_rom: vec![2; 0x2000], screen_mirroring: Mirroring::VERTICAL }
}

#[test]
fn ram_mirroring() {
    let mut bus = Bus::new(rom_with(vec![0; 0x8000]));
    bus.write_mem(0x0000, 0x5a).unwrap();
    assert_eq!(bus.read_mem(0x0800), Ok(0x5a));
    assert_eq!(bus.read_mem(0x1000), Ok(0x5a));
    assert_eq!(bus.read_mem(0x1800), Ok(0x5a));
    bus.write_mem(0x1fff, 0x11).unwrap();
    assert_eq!(bus.read_mem(0x07ff), Ok(0x11));
}

#[test]
fn sixteen_kilobyte_rom_is_mirrored() {
    let mut prg = vec![0; 0x4000];
    prg[0x0010] = 0x77;
    let mut bus = Bus::new(rom_with(prg));
    assert_eq!(bus.read_mem(0x8010), Ok(0x77));
    assert_eq!(bus.read_mem(0xC010), Ok(0x77));
    assert_eq!(bus.peek(0xC010), 0x77);
}

#[test]
fn thirty_two_kilobyte_rom_is_not_mirrored() {
    let mut prg = vec![0; 0x8000];
    prg[0x0010] = 0x77;
    prg[0x4010] = 0x88;
    let mut bus = Bus::new(rom_with(prg));
    assert_eq!(bus.read_mem(0x8010), Ok(0x77));
    assert_eq!(bus.read_mem(0xC010), Ok(0x88));
}

#[test]
fn unmapped_space_is_ignored() {
    let mut bus = Bus::new(rom_with(vec![0; 0x8000]));
    assert_eq!(bus.write_mem(0x4000, 0x12), Ok(()));
    assert_eq!(bus.read_mem(0x4000), Ok(0));
    assert_eq!(bus.read_mem(0x6000), Ok(0));
    assert_eq!(bus.read_mem(0x4014), Ok(0));
}

#[test]
fn register_traps() {
    let mut bus = Bus::new(rom_with(vec![0; 0x8000]));
    assert_eq!(bus.read_mem(0x2000), Err(BusError::WriteOnlyRead(0x2000)));
    assert_eq!(bus.read_mem(0x2006), Err(BusError::WriteOnlyRead(0x2006)));
    assert_eq!(bus.read_mem(0x3ff8), Err(BusError::WriteOnlyRead(0x2000)));
    assert_eq!(bus.write_mem(0x2002, 1), Err(BusError::ReadOnlyWrite(0x2002)));
    assert_eq!(bus.write_mem(0x8000, 1), Err(BusError::RomWrite(0x8000)));
    assert_eq!(bus.write_mem(0xffff, 1), Err(BusError::RomWrite(0xffff)));
}

#[test]
fn status_read_resets_the_address_latch() {
    let mut bus = Bus::new(rom_with(vec![0; 0x8000]));
    bus.write_mem(0x2006, 0x23).unwrap();
    assert_eq!(bus.read_mem(0x2002), Ok(0));
    // the latch points at the high byte again
    bus.write_mem(0x2006, 0x21).unwrap();
    bus.write_mem(0x2006, 0x05).unwrap();
    bus.write_mem(0x2007, 0x66).unwrap();
    bus.write_mem(0x2006, 0x21).unwrap();
    bus.write_mem(0x2006, 0x05).unwrap();
    // the first read returns the buffer, the second the byte
    bus.read_mem(0x2007).unwrap();
    assert_eq!(bus.read_mem(0x2007), Ok(0x66));
}

#[test]
fn ppu_registers_repeat_every_eight_bytes() {
    let mut bus = Bus::new(rom_with(vec![0; 0x8000]));
    bus.write_mem(0x2003, 0x10).unwrap();
    bus.write_mem(0x200c, 0x99).unwrap();
    bus.write_mem(0x3ffb, 0x10).unwrap();
    assert_eq!(bus.read_mem(0x2004), Ok(0x99));
}

#[test]
fn ppu_faults_come_through() {
    let mut bus = Bus::new(rom_with(vec![0; 0x8000]));
    bus.write_mem(0x2006, 0x00).unwrap();
    bus.write_mem(0x2006, 0x10).unwrap();
    assert_eq!(bus.write_mem(0x2007, 1), Err(BusError::Ppu(PpuError::ChrRomWrite(0x0010))));
    bus.write_mem(0x2006, 0x30).unwrap();
    bus.write_mem(0x2006, 0x00).unwrap();
    assert_eq!(bus.read_mem(0x2007), Err(BusError::Ppu(PpuError::Unmapped(0x3000))));
}

fn ines(flags6: u8, flags7: u8, prg_pages: u8, chr_pages: u8, body: usize) -> Vec<u8> {
    let mut raw = vec![0x4E, 0x45, 0x53, 0x1A, prg_pages, chr_pages, flags6, flags7, 0, 0, 0, 0, 0, 0, 0, 0];
    for i in 0..body {
        raw.push((i % 251) as u8);
    }
    raw
}

#[test]
fn decodes_ines_image() {
    let raw = ines(0b0000_0001, 0, 1, 1, 0x4000 + 0x2000);
    let rom = Rom::new(&raw).unwrap();
    assert_eq!(rom.prg_rom.len(), 0x4000);
    assert_eq!(rom.chr_rom.len(), 0x2000);
    assert_eq!(rom.prg_rom[1], 1);
    assert_eq!(rom.chr_rom[0], (0x4000 % 251) as u8);
    assert_eq!(rom.screen_mirroring, Mirroring::VERTICAL);
}

#[test]
fn decodes_trainer_and_four_screen() {
    let raw = ines(0b0000_1100, 0, 1, 0, 512 + 0x4000);
    let rom = Rom::new(&raw).unwrap();
    assert_eq!(rom.prg_rom[0], (512 % 251) as u8);
    assert_eq!(rom.chr_rom.len(), 0);
    assert_eq!(rom.screen_mirroring, Mirroring::FOUR_SCREEN);
}

#[test]
fn rejects_bad_images() {
    let mut raw = ines(0, 0, 1, 1, 0x6000);
    raw[0] = 0x4D;
    assert_eq!(Rom::new(&raw).err(), Some(RomError::NotINes));
    assert_eq!(Rom::new(&vec![0x4E, 0x45]).err(), Some(RomError::NotINes));
    let raw = ines(0, 0b0000_1000, 1, 1, 0x6000);
    assert_eq!(Rom::new(&raw).err(), Some(RomError::Nes2Unsupported));
    let raw = ines(0, 0, 2, 1, 0x6000);
    assert_eq!(Rom::new(&raw).err(), Some(RomError::Truncated));
}
