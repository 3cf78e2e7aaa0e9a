use nes_emulator::cartridge::Mirroring;
use nes_emulator::ppu::addr_reg::AddrRegister;
use nes_emulator::ppu::control_reg::ControlRegister;
use nes_emulator::ppu::mask::Mask;
use nes_emulator::ppu::nes_ppu::{PpuError, PPU};
use nes_emulator::ppu::scroll::ScrollReg;
use nes_emulator::ppu::status::Status;

fn ppu(m: Mirroring) -> PPU {
    let mut chr = vec![0; 0x2000];
    chr[0x0123] = 0xab;
    PPU::new(chr, m)
}

#[test]
fn vram_mirroring_modes() {
    let v = ppu(Mirroring::VERTICAL);
    assert_eq!(v.mirror_vram_addr(0x2005), 0x005);
    assert_eq!(v.mirror_vram_addr(0x2405), 0x405);
    assert_eq!(v.mirror_vram_addr(0x2805), 0x005);
    assert_eq!(v.mirror_vram_addr(0x2c05), 0x405);
    assert_eq!(v.mirror_vram_addr(0x3005), 0x005);
    let h = ppu(Mirroring::HORIZONTAL);
    assert_eq!(h.mirror_vram_addr(0x2005), 0x005);
    assert_eq!(h.mirror_vram_addr(0x2405), 0x005);
    assert_eq!(h.mirror_vram_addr(0x2805), 0x405);
    assert_eq!(h.mirror_vram_addr(0x2c05), 0x405);
    let f = ppu(Mirroring::FOUR_SCREEN);
    assert_eq!(f.mirror_vram_addr(0x2c05), 0xc05);
}

#[test]
fn data_register_reads_are_buffered() {
    let mut p = ppu(Mirroring::VERTICAL);
    p.write_to_ppu_addr(0x01);
    p.write_to_ppu_addr(0x23);
    assert_eq!(p.read_data(), Ok(0));
    p.write_to_ppu_addr(0x01);
    p.write_to_ppu_addr(0x23);
    p.read_data().unwrap();
    assert_eq!(p.read_data(), Ok(0xab));
}

#[test]
fn data_register_steps_by_control_increment() {
    let mut p = ppu(Mirroring::HORIZONTAL);
    p.write_to_ctrl(0b0000_0100);
    p.write_to_ppu_addr(0x21);
    p.write_to_ppu_addr(0xff);
    p.write_data(0x66).unwrap();
    assert_eq!(p.addr.get(), 0x221f);
    assert_eq!(p.vram[0x1ff], 0x66);
}

#[test]
fn palette_mirrors() {
    let mut p = ppu(Mirroring::VERTICAL);
    p.write_to_ppu_addr(0x3f);
    p.write_to_ppu_addr(0x10);
    p.write_data(0x21).unwrap();
    assert_eq!(p.palette_table[0], 0x21);
    p.write_to_ppu_addr(0x3f);
    p.write_to_ppu_addr(0x20);
    assert_eq!(p.read_data(), Ok(0x21));
}

#[test]
fn data_register_faults() {
    let mut p = ppu(Mirroring::VERTICAL);
    p.write_to_ppu_addr(0x00);
    p.write_to_ppu_addr(0x00);
    assert_eq!(p.write_data(1), Err(PpuError::ChrRomWrite(0)));
    p.write_to_ppu_addr(0x3e);
    p.write_to_ppu_addr(0xff);
    assert_eq!(p.read_data(), Err(PpuError::Unmapped(0x3eff)));
    let mut f = ppu(Mirroring::FOUR_SCREEN);
    f.write_to_ppu_addr(0x28);
    f.write_to_ppu_addr(0x00);
    assert_eq!(f.read_data(), Err(PpuError::Unmapped(0x2800)));
}

#[test]
fn address_register_keeps_fourteen_bits() {
    let mut a = AddrRegister::new();
    a.update(0xff);
    a.update(0x34);
    assert_eq!(a.get(), 0x3f34);
    a.increment(0xd0);
    assert_eq!(a.get(), 0x0004);
    a.reset_latch();
    assert!(a.hi_ptr);
}

#[test]
fn oam_access_and_dma() {
    let mut p = ppu(Mirroring::VERTICAL);
    p.set_oam_addr(0xfe);
    p.write_oam_data(1);
    p.write_oam_data(2);
    assert_eq!(p.oam_data[0xfe], 1);
    assert_eq!(p.oam_data[0xff], 2);
    p.set_oam_addr(0x10);
    p.oam_dma(&[7, 8, 9]);
    assert_eq!(p.oam_data[0x12], 9);
    p.set_oam_addr(0x11);
    assert_eq!(p.read_oam_data(), 8);
}

#[test]
fn status_read_clears_vblank_and_latches() {
    let mut p = ppu(Mirroring::VERTICAL);
    p.status = Status { bits: 0b1100_0000 };
    p.write_scroll(5);
    p.write_to_ppu_addr(0x21);
    assert_eq!(p.read_status(), 0b1100_0000);
    assert_eq!(p.status.bits(), 0b0100_0000);
    assert!(p.addr.hi_ptr);
    assert!(p.scroll.hrz_pt);
}

#[test]
fn scroll_register() {
    let mut s = ScrollReg::new();
    s.write(10);
    s.write(200);
    assert_eq!(s.value, (10, 200));
    s.write(240);
    assert_eq!(s.value.1, 255);
    s.reset_latch();
    s.write(3);
    assert_eq!(s.value.0, 3);
}

#[test]
fn mask_setters() {
    let mut m = Mask::empty();
    m.set_gsc();
    m.set_bcl();
    m.set_spl();
    m.set_sbg();
    assert_eq!(m.bits, 0x0f);
    m.set_ssp();
    m.set_emr();
    m.set_emg();
    m.set_emb();
    assert_eq!(m.bits, 0xff);
    m.set_mltpl(0x12);
    assert_eq!(m.bits, 0x12);
}

#[test]
fn control_increment() {
    let mut c = ControlRegister::new();
    assert_eq!(c.vram_addr_increment(), 1);
    c.update(0b0000_0100);
    assert_eq!(c.vram_addr_increment(), 32);
}
