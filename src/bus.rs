use vstd::prelude::*;

use crate::cartridge::Rom;
use crate::ppu::addr_reg::AddrRegister;
use crate::ppu::control_reg::ControlRegister;
use crate::ppu::mask::Mask;
use crate::ppu::nes_ppu::{PpuError, PpuView, PPU};

verus! {

pub const RAM: u16 = 0x0000;
pub const RAM_MIRRORS_END: u16 = 0x1FFF;
pub const PPU_REGISTERS: u16 = 0x2000;
pub const PPU_REGISTERS_MIRRORS_END: u16 = 0x3FFF;
pub const PRG_ROM: u16 = 0x8000;

/// An access the address space cannot serve; each one ends a run.
#[derive(Clone, Copy, Debug, PartialEq, Eq, Structural)]
pub enum BusError {
    /// Read of a write-only picture-unit register.
    WriteOnlyRead(u16),
    /// Write to the read-only picture-unit status register.
    ReadOnlyWrite(u16),
    /// Write into cartridge program memory.
    RomWrite(u16),
    /// The picture unit's data register refused the access.
    Ppu(PpuError),
}

/// The processor's 64KB address space: 2KB of RAM, the picture unit's
/// registers and cartridge program memory.
pub struct Bus {
    cpu_vram: [u8; 2048],
    prg_rom: Vec<u8>,
    ppu: PPU,
}

/// The state of a [`Bus`] as plain values.
pub struct BusView {
    pub ram: Seq<u8>,
    pub prg: Seq<u8>,
    pub ppu: PpuView,
}

impl View for Bus {
    type V = BusView;

    closed spec fn view(&self) -> BusView {
        BusView { ram: self.cpu_vram@, prg: self.prg_rom@, ppu: self.ppu@ }
    }
}

/// The picture-unit register that `addr` (0x2000 - 0x3FFF) selects.
pub open spec fn ppu_register(addr: u16) -> u16 {
    addr & 0x2007
}

/// Offset into program memory of `addr` (0x8000 - 0xFFFF): a 16KB image
/// fills both halves of the window.
pub open spec fn prg_offset(prg_len: nat, addr: u16) -> int {
    let off = addr as int - 0x8000;
    if prg_len == 0x4000 && off >= 0x4000 {
        off % 0x4000
    } else {
        off
    }
}

impl BusView {
    /// Storage sizes are those of the hardware.
    pub open spec fn wf(self) -> bool {
        &&& self.ram.len() == 2048
        &&& self.ppu.palette.len() == 32
        &&& self.ppu.vram.len() == 2048
        &&& self.ppu.oam.len() == 256
    }

    pub open spec fn power_on(rom_prg: Seq<u8>, rom_chr: Seq<u8>, m: crate::cartridge::Mirroring) -> BusView {
        BusView {
            ram: Seq::new(2048, |i: int| 0u8),
            prg: rom_prg,
            ppu: PpuView::power_on(rom_chr, m),
        }
    }

    /// Byte of program memory at `addr` (0x8000 - 0xFFFF); past the end of
    /// the image the bus floats and reads 0.
    pub open spec fn prg_byte(self, addr: u16) -> u8 {
        let off = prg_offset(self.prg.len(), addr);
        if off < self.prg.len() {
            self.prg[off]
        } else {
            0
        }
    }

    pub open spec fn with_ppu(self, p: PpuView) -> BusView {
        BusView { ppu: p, ..self }
    }

    /// A read of `addr`: the state after it and the byte returned.
    #[verifier::opaque]
    pub open spec fn read(self, addr: u16) -> (BusView, Result<u8, BusError>) {
        if addr <= RAM_MIRRORS_END {
            (self, Ok(self.ram[(addr & 0x07ff) as int]))
        } else if addr <= PPU_REGISTERS_MIRRORS_END {
            let reg = ppu_register(addr);
            if reg == 0x2002 {
                let (p, v) = self.ppu.status_read();
                (self.with_ppu(p), Ok(v))
            } else if reg == 0x2004 {
                (self, Ok(self.ppu.oam_read()))
            } else if reg == 0x2007 {
                let (p, v) = self.ppu.data_read();
                match v {
                    Ok(b) => (self.with_ppu(p), Ok(b)),
                    Err(e) => (self.with_ppu(p), Err(BusError::Ppu(e))),
                }
            } else {
                (self, Err(BusError::WriteOnlyRead(reg)))
            }
        } else if addr >= PRG_ROM {
            (self, Ok(self.prg_byte(addr)))
        } else {
            (self, Ok(0))
        }
    }

    /// A write of `data` to `addr`: the state after it.
    #[verifier::opaque]
    pub open spec fn write(self, addr: u16, data: u8) -> (BusView, Result<(), BusError>) {
        if addr <= RAM_MIRRORS_END {
            (BusView { ram: self.ram.update((addr & 0x07ff) as int, data), ..self }, Ok(()))
        } else if addr <= PPU_REGISTERS_MIRRORS_END {
            let reg = ppu_register(addr);
            let p = self.ppu;
            if reg == 0x2000 {
                (self.with_ppu(PpuView { ctrl: ControlRegister { bits: data }, ..p }), Ok(()))
            } else if reg == 0x2001 {
                (self.with_ppu(PpuView { mask: Mask { bits: data }, ..p }), Ok(()))
            } else if reg == 0x2003 {
                (self.with_ppu(PpuView { oam_addr: data, ..p }), Ok(()))
            } else if reg == 0x2004 {
                (self.with_ppu(p.oam_written(data)), Ok(()))
            } else if reg == 0x2005 {
                (self.with_ppu(PpuView { scroll: p.scroll.written(data), ..p }), Ok(()))
            } else if reg == 0x2006 {
                (self.with_ppu(PpuView { addr: p.addr.updated(data), ..p }), Ok(()))
            } else if reg == 0x2007 {
                let (q, r) = p.data_written(data);
                match r {
                    Ok(_) => (self.with_ppu(q), Ok(())),
                    Err(e) => (self.with_ppu(q), Err(BusError::Ppu(e))),
                }
            } else {
                (self, Err(BusError::ReadOnlyWrite(reg)))
            }
        } else if addr >= PRG_ROM {
            (self, Err(BusError::RomWrite(addr)))
        } else {
            (self, Ok(()))
        }
    }

    /// What `addr` holds in RAM or program memory, without side effects;
    /// 0 elsewhere.
    pub open spec fn peek(self, addr: u16) -> u8 {
        if addr <= RAM_MIRRORS_END {
            self.ram[(addr & 0x07ff) as int]
        } else if addr >= PRG_ROM {
            self.prg_byte(addr)
        } else {
            0
        }
    }
}

/// Outside the picture-unit registers a read has no side effect and returns
/// what `peek` shows.
pub proof fn lemma_plain_read(b: BusView, addr: u16)
    requires
        !(PPU_REGISTERS <= addr <= PPU_REGISTERS_MIRRORS_END),
    ensures
        b.read(addr) == (b, Ok::<u8, BusError>(b.peek(addr))),
{
    reveal(BusView::read);
}

pub proof fn lemma_ram_index(addr: u16)
    ensures
        (addr & 0x07ff) < 2048,
{
    assert((addr & 0x07ff) < 2048) by (bit_vector);
}

pub proof fn lemma_ppu_register(addr: u16)
    ensures
        0x2000 <= addr <= 0x3fff ==> 0x2000 <= (addr & 0x2007) <= 0x2007,
{
    assert(0x2000 <= addr <= 0x3fff ==> 0x2000 <= (addr & 0x2007) <= 0x2007) by (bit_vector);
}

impl Bus {
    pub proof fn lemma_view_wf(&self)
        ensures
            self@.wf(),
    {
    }

    pub fn new(rom: Rom) -> (r: Bus)
        ensures
            r@ == BusView::power_on(rom.prg_rom@, rom.chr_rom@, rom.screen_mirroring),
    {
        let ppu = PPU::new(rom.chr_rom, rom.screen_mirroring);
        let r = Bus { cpu_vram: [0; 2048], prg_rom: rom.prg_rom, ppu: ppu };
        assert(r@.ram =~= Seq::new(2048, |i: int| 0u8));
        r
    }

    fn read_prg_rom(&self, addr: u16) -> (r: u8)
        requires
            addr >= PRG_ROM,
        ensures
            r == self@.prg_byte(addr),
    {
        let mut off = addr - PRG_ROM;
        if self.prg_rom.len() == 0x4000 && off >= 0x4000 {
            off = off % 0x4000;
        }
        if (off as usize) < self.prg_rom.len() {
            self.prg_rom[off as usize]
        } else {
            0
        }
    }

    pub fn read_mem(&mut self, addr: u16) -> (r: Result<u8, BusError>)
        ensures
            (final(self)@, r) == old(self)@.read(addr),
    {
        proof {
            lemma_ram_index(addr);
            lemma_ppu_register(addr);
            reveal(BusView::read);
        }
        if addr <= RAM_MIRRORS_END {
            Ok(self.cpu_vram[(addr & 0x07ff) as usize])
        } else if addr <= PPU_REGISTERS_MIRRORS_END {
            let reg = addr & 0x2007;
            if reg == 0x2002 {
                Ok(self.ppu.read_status())
            } else if reg == 0x2004 {
                Ok(self.ppu.read_oam_data())
            } else if reg == 0x2007 {
                match self.ppu.read_data() {
                    Ok(b) => Ok(b),
                    Err(e) => Err(BusError::Ppu(e)),
                }
            } else {
                Err(BusError::WriteOnlyRead(reg))
            }
        } else if addr >= PRG_ROM {
            Ok(self.read_prg_rom(addr))
        } else {
            Ok(0)
        }
    }

    pub fn write_mem(&mut self, addr: u16, data: u8) -> (r: Result<(), BusError>)
        ensures
            (final(self)@, r) == old(self)@.write(addr, data),
    {
        proof {
            lemma_ram_index(addr);
            lemma_ppu_register(addr);
            reveal(BusView::write);
        }
        if addr <= RAM_MIRRORS_END {
            self.cpu_vram[(addr & 0x07ff) as usize] = data;
            Ok(())
        } else if addr <= PPU_REGISTERS_MIRRORS_END {
            let reg = addr & 0x2007;
            if reg == 0x2000 {
                self.ppu.write_to_ctrl(data);
                Ok(())
            } else if reg == 0x2001 {
                self.ppu.write_to_mask(data);
                Ok(())
            } else if reg == 0x2003 {
                self.ppu.set_oam_addr(data);
                Ok(())
            } else if reg == 0x2004 {
                self.ppu.write_oam_data(data);
                Ok(())
            } else if reg == 0x2005 {
                self.ppu.write_scroll(data);
                Ok(())
            } else if reg == 0x2006 {
                self.ppu.write_to_ppu_addr(data);
                Ok(())
            } else if reg == 0x2007 {
                match self.ppu.write_data(data) {
                    Ok(_) => Ok(()),
                    Err(e) => Err(BusError::Ppu(e)),
                }
            } else {
                Err(BusError::ReadOnlyWrite(reg))
            }
        } else if addr >= PRG_ROM {
            Err(BusError::RomWrite(addr))
        } else {
            Ok(())
        }
    }

    /// Reads `addr` without side effects: RAM and program memory as they
    /// are, 0 elsewhere.
    pub fn peek(&self, addr: u16) -> (r: u8)
        ensures
            r == self@.peek(addr),
    {
        proof {
            lemma_ram_index(addr);
        }
        if addr <= RAM_MIRRORS_END {
            self.cpu_vram[(addr & 0x07ff) as usize]
        } else if addr >= PRG_ROM {
            self.read_prg_rom(addr)
        } else {
            0
        }
    }
}

} // verus!
