use vstd::prelude::*;

use crate::cartridge::Mirroring;
use crate::ppu::addr_reg::AddrRegister;
use crate::ppu::control_reg::ControlRegister;
use crate::ppu::mask::Mask;
use crate::ppu::scroll::ScrollReg;
use crate::ppu::status::Status;

verus! {

// Address space of the picture unit, as its data register sees it:
//
//   0x0000 - 0x1FFF   pattern tables (cartridge graphics memory)
//   0x2000 - 0x2FFF   name tables (video RAM, folded by the mirroring mode)
//   0x3000 - 0x3EFF   unused
//   0x3F00 - 0x3FFF   palettes (32 bytes, repeated)

/// An access through the data register that the picture unit cannot serve.
#[derive(Clone, Copy, Debug, PartialEq, Eq, Structural)]
pub enum PpuError {
    /// Write to cartridge graphics memory, which is read-only.
    ChrRomWrite(u16),
    /// The address has no storage behind it.
    Unmapped(u16),
}

pub struct PPU {
    pub chr_rom: Vec<u8>,
    pub palette_table: [u8; 32],
    pub vram: [u8; 2048],
    pub oam_data: [u8; 256],
    pub mirroring: Mirroring,
    pub ctrl: ControlRegister,
    pub addr: AddrRegister,
    pub status: Status,
    pub mask: Mask,
    pub scroll: ScrollReg,
    pub data_buf: u8,
    pub oam_addr: u8,
}

/// The state of a [`PPU`] as plain values.
pub struct PpuView {
    pub chr_rom: Seq<u8>,
    pub palette: Seq<u8>,
    pub vram: Seq<u8>,
    pub oam: Seq<u8>,
    pub mirroring: Mirroring,
    pub ctrl: ControlRegister,
    pub addr: AddrRegister,
    pub status: Status,
    pub mask: Mask,
    pub scroll: ScrollReg,
    pub data_buf: u8,
    pub oam_addr: u8,
}

impl View for PPU {
    type V = PpuView;

    open spec fn view(&self) -> PpuView {
        PpuView {
            chr_rom: self.chr_rom@,
            palette: self.palette_table@,
            vram: self.vram@,
            oam: self.oam_data@,
            mirroring: self.mirroring,
            ctrl: self.ctrl,
            addr: self.addr,
            status: self.status,
            mask: self.mask,
            scroll: self.scroll,
            data_buf: self.data_buf,
            oam_addr: self.oam_addr,
        }
    }
}

/// Index into video RAM of name-table address `addr` (0x2000 - 0x3FFF, where
/// 0x3000 - 0x3FFF repeats 0x2000 - 0x2FFF) under `mirroring`.
pub open spec fn vram_index(mirroring: Mirroring, addr: u16) -> int {
    let i = (addr & 0x2fff) as int - 0x2000;
    let name_table = i / 0x400;
    match mirroring {
        Mirroring::VERTICAL => if name_table >= 2 { i - 0x800 } else { i },
        Mirroring::HORIZONTAL => if name_table == 1 || name_table == 2 {
            i - 0x400
        } else if name_table == 3 {
            i - 0x800
        } else {
            i
        },
        Mirroring::FOUR_SCREEN => i,
    }
}

/// Index into the palette table of address `a` (0x3F00 - 0x3FFF): the table
/// repeats every 32 bytes, and the four sprite backdrop entries repeat the
/// background ones.
pub open spec fn palette_index(a: u16) -> int {
    let i = (a as int - 0x3f00) % 32;
    if i == 0x10 || i == 0x14 || i == 0x18 || i == 0x1c {
        i - 0x10
    } else {
        i
    }
}

impl PpuView {
    /// The state of a freshly built picture unit.
    pub open spec fn power_on(chr_rom: Seq<u8>, mirroring: Mirroring) -> PpuView {
        PpuView {
            chr_rom: chr_rom,
            palette: Seq::new(32, |i: int| 0u8),
            vram: Seq::new(2048, |i: int| 0u8),
            oam: Seq::new(256, |i: int| 0u8),
            mirroring: mirroring,
            ctrl: ControlRegister { bits: 0 },
            addr: AddrRegister { value: (0, 0), hi_ptr: true },
            status: Status { bits: 0 },
            mask: Mask { bits: 0 },
            scroll: ScrollReg { value: (0, 0), hrz_pt: true },
            data_buf: 0,
            oam_addr: 0,
        }
    }

    pub open spec fn data_address(self) -> u16 {
        self.addr.get_spec() as u16
    }

    /// The state after the data register's address took its step.
    pub open spec fn stepped(self) -> PpuView {
        PpuView { addr: self.addr.incremented(self.ctrl.increment_spec()), ..self }
    }

    /// A read through the data register: the state after it and the byte
    /// returned. Pattern and name-table reads return the buffered byte and
    /// buffer the addressed one; palette reads are direct.
    pub open spec fn data_read(self) -> (PpuView, Result<u8, PpuError>) {
        let a = self.data_address();
        if a <= 0x1fff {
            if (a as int) < self.chr_rom.len() {
                (PpuView { data_buf: self.chr_rom[a as int], ..self.stepped() }, Ok(self.data_buf))
            } else {
                (self, Err(PpuError::Unmapped(a)))
            }
        } else if a <= 0x2fff {
            let i = vram_index(self.mirroring, a);
            if i < 2048 {
                (PpuView { data_buf: self.vram[i], ..self.stepped() }, Ok(self.data_buf))
            } else {
                (self, Err(PpuError::Unmapped(a)))
            }
        } else if 0x3f00 <= a <= 0x3fff {
            (self.stepped(), Ok(self.palette[palette_index(a)]))
        } else {
            (self, Err(PpuError::Unmapped(a)))
        }
    }

    /// A write through the data register.
    pub open spec fn data_written(self, data: u8) -> (PpuView, Result<(), PpuError>) {
        let a = self.data_address();
        if a <= 0x1fff {
            (self, Err(PpuError::ChrRomWrite(a)))
        } else if a <= 0x2fff {
            let i = vram_index(self.mirroring, a);
            if i < 2048 {
                (PpuView { vram: self.vram.update(i, data), ..self.stepped() }, Ok(()))
            } else {
                (self, Err(PpuError::Unmapped(a)))
            }
        } else if 0x3f00 <= a <= 0x3fff {
            (
                PpuView { palette: self.palette.update(palette_index(a), data), ..self.stepped() },
                Ok(()),
            )
        } else {
            (self, Err(PpuError::Unmapped(a)))
        }
    }

    /// A read of the status register: it returns the status and resets both
    /// write latches and the vertical-blank bit.
    pub open spec fn status_read(self) -> (PpuView, u8) {
        (
            PpuView {
                addr: AddrRegister { hi_ptr: true, ..self.addr },
                scroll: ScrollReg { hrz_pt: true, ..self.scroll },
                status: self.status.without_vblank(),
                ..self
            },
            self.status.bits,
        )
    }

    pub open spec fn oam_read(self) -> u8 {
        self.oam[self.oam_addr as int]
    }

    /// One byte stored at the sprite memory address, which then moves on.
    pub open spec fn oam_written(self, value: u8) -> PpuView {
        PpuView {
            oam: self.oam.update(self.oam_addr as int, value),
            oam_addr: if self.oam_addr == 255 { 0 } else { (self.oam_addr + 1) as u8 },
            ..self
        }
    }

    /// The bytes of `data` stored one after another from the sprite memory
    /// address on.
    pub open spec fn dma(self, data: Seq<u8>) -> PpuView
        decreases data.len(),
    {
        if data.len() == 0 {
            self
        } else {
            self.dma(data.drop_last()).oam_written(data.last())
        }
    }
}

impl PPU {
    pub fn new(chr_rom: Vec<u8>, mirroring: Mirroring) -> (r: PPU)
        ensures
            r@ == PpuView::power_on(chr_rom@, mirroring),
    {
        let r = PPU {
            chr_rom: chr_rom,
            mirroring: mirroring,
            vram: [0; 2048],
            oam_data: [0; 256],
            palette_table: [0; 32],
            addr: AddrRegister::new(),
            ctrl: ControlRegister::new(),
            data_buf: 0,
            mask: Mask::empty(),
            status: Status::empty(),
            scroll: ScrollReg::new(),
            oam_addr: 0,
        };
        assert(r@.vram =~= Seq::new(2048, |i: int| 0u8));
        assert(r@.oam =~= Seq::new(256, |i: int| 0u8));
        assert(r@.palette =~= Seq::new(32, |i: int| 0u8));
        r
    }

    pub fn write_to_ppu_addr(&mut self, value: u8)
        ensures
            final(self)@ == (PpuView { addr: old(self)@.addr.updated(value), ..old(self)@ }),
    {
        self.addr.update(value);
    }

    pub fn write_to_ctrl(&mut self, value: u8)
        ensures
            final(self)@ == (PpuView { ctrl: ControlRegister { bits: value }, ..old(self)@ }),
    {
        self.ctrl.update(value);
    }

    pub fn write_to_mask(&mut self, value: u8)
        ensures
            final(self)@ == (PpuView { mask: Mask { bits: value }, ..old(self)@ }),
    {
        self.mask.set_mltpl(value);
    }

    fn increment_vram_addr(&mut self)
        ensures
            final(self)@ == old(self)@.stepped(),
    {
        let inc = self.ctrl.vram_addr_increment();
        self.addr.increment(inc);
    }

    /// Index into video RAM of a name-table address; 0x3000 - 0x3FFF repeats
    /// 0x2000 - 0x2FFF.
    pub fn mirror_vram_addr(&self, addr: u16) -> (r: u16)
        requires
            0x2000 <= addr <= 0x3fff,
        ensures
            r as int == vram_index(self.mirroring, addr),
    {
        assert(0x2000 <= (addr & 0x2fff) <= 0x2fff) by (bit_vector)
            requires
                0x2000 <= addr <= 0x3fff,
        ;
        let mirrored_vram = addr & 0x2fff;
        let vram_index = mirrored_vram - 0x2000;
        let name_table = vram_index / 0x400;
        match self.mirroring {
            Mirroring::VERTICAL => if name_table >= 2 {
                vram_index - 0x800
            } else {
                vram_index
            },
            Mirroring::HORIZONTAL => if name_table == 1 || name_table == 2 {
                vram_index - 0x400
            } else if name_table == 3 {
                vram_index - 0x800
            } else {
                vram_index
            },
            Mirroring::FOUR_SCREEN => vram_index,
        }
    }

    fn palette_slot(a: u16) -> (r: usize)
        requires
            0x3f00 <= a <= 0x3fff,
        ensures
            r as int == palette_index(a),
            r < 32,
    {
        let i = (a - 0x3f00) % 32;
        if i == 0x10 || i == 0x14 || i == 0x18 || i == 0x1c {
            (i - 0x10) as usize
        } else {
            i as usize
        }
    }

    /// Reads through the data register.
    pub fn read_data(&mut self) -> (r: Result<u8, PpuError>)
        ensures
            (final(self)@, r) == old(self)@.data_read(),
    {
        let addr = self.addr.get();
        if addr <= 0x1fff {
            if (addr as usize) < self.chr_rom.len() {
                let result = self.data_buf;
                self.increment_vram_addr();
                self.data_buf = self.chr_rom[addr as usize];
                Ok(result)
            } else {
                Err(PpuError::Unmapped(addr))
            }
        } else if addr <= 0x2fff {
            let i = self.mirror_vram_addr(addr);
            if i < 2048 {
                let result = self.data_buf;
                self.increment_vram_addr();
                self.data_buf = self.vram[i as usize];
                Ok(result)
            } else {
                Err(PpuError::Unmapped(addr))
            }
        } else if 0x3f00 <= addr && addr <= 0x3fff {
            let result = self.palette_table[Self::palette_slot(addr)];
            self.increment_vram_addr();
            Ok(result)
        } else {
            Err(PpuError::Unmapped(addr))
        }
    }

    /// Writes through the data register.
    pub fn write_data(&mut self, data: u8) -> (r: Result<(), PpuError>)
        ensures
            (final(self)@, r) == old(self)@.data_written(data),
    {
        let addr = self.addr.get();
        if addr <= 0x1fff {
            Err(PpuError::ChrRomWrite(addr))
        } else if addr <= 0x2fff {
            let i = self.mirror_vram_addr(addr);
            if i < 2048 {
                self.increment_vram_addr();
                self.vram[i as usize] = data;
                Ok(())
            } else {
                Err(PpuError::Unmapped(addr))
            }
        } else if 0x3f00 <= addr && addr <= 0x3fff {
            self.increment_vram_addr();
            self.palette_table[Self::palette_slot(addr)] = data;
            Ok(())
        } else {
            Err(PpuError::Unmapped(addr))
        }
    }

    pub fn read_status(&mut self) -> (r: u8)
        ensures
            (final(self)@, r) == old(self)@.status_read(),
    {
        let r = self.status.bits();
        self.addr.reset_latch();
        self.scroll.reset_latch();
        self.status.clear_vblank();
        r
    }

    pub fn set_oam_addr(&mut self, addr: u8)
        ensures
            final(self)@ == (PpuView { oam_addr: addr, ..old(self)@ }),
    {
        self.oam_addr = addr;
    }

    pub fn read_oam_data(&mut self) -> (r: u8)
        ensures
            final(self)@ == old(self)@,
            r == old(self)@.oam_read(),
    {
        self.oam_data[self.oam_addr as usize]
    }

    pub fn write_oam_data(&mut self, value: u8)
        ensures
            final(self)@ == old(self)@.oam_written(value),
    {
        self.oam_data[self.oam_addr as usize] = value;
        self.oam_addr = self.oam_addr.wrapping_add(1);
        assert(self@.oam =~= old(self)@.oam_written(value).oam);
    }

    pub fn write_scroll(&mut self, data: u8)
        ensures
            final(self)@ == (PpuView { scroll: old(self)@.scroll.written(data), ..old(self)@ }),
    {
        self.scroll.write(data);
    }

    /// Copies `data` into sprite memory from the sprite memory address on.
    pub fn oam_dma(&mut self, data: &[u8])
        ensures
            final(self)@ == old(self)@.dma(data@),
    {
        let mut i: usize = 0;
        while i < data.len()
            invariant
                i <= data@.len(),
                self@ == old(self)@.dma(data@.subrange(0, i as int)),
            decreases data@.len() - i,
        {
            assert(data@.subrange(0, i as int + 1).drop_last() =~= data@.subrange(0, i as int));
            self.write_oam_data(data[i]);
            i = i + 1;
        }
        assert(data@.subrange(0, i as int) =~= data@);
    }
}

} // verus!
