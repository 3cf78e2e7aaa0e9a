use vstd::prelude::*;

verus! {

/// How the picture unit folds its four logical name tables onto video RAM.
#[allow(non_camel_case_types)]
#[derive(Clone, Copy, Debug, PartialEq, Eq, Structural)]
pub enum Mirroring {
    VERTICAL,
    HORIZONTAL,
    FOUR_SCREEN,
}

/// A decoded cartridge image: program memory, graphics memory and the
/// name-table mirroring it asks for.
pub struct Rom {
    pub prg_rom: Vec<u8>,
    pub chr_rom: Vec<u8>,
    pub screen_mirroring: Mirroring,
}

/// Why an image could not be decoded.
#[derive(Clone, Copy, Debug, PartialEq, Eq, Structural)]
pub enum RomError {
    /// The image does not start with the iNES tag.
    NotINes,
    /// The header is in the NES 2.0 format.
    Nes2Unsupported,
    /// The image is shorter than its header says.
    Truncated,
}

pub const PRG_ROM_PAGE_SIZE: usize = 16384;
pub const CHR_ROM_PAGE_SIZE: usize = 8192;
pub const HEADER_SIZE: usize = 16;
pub const TRAINER_SIZE: usize = 512;

/// The image starts with a 16-byte header carrying the tag "NES" 0x1A.
pub open spec fn is_ines(raw: Seq<u8>) -> bool {
    &&& raw.len() >= HEADER_SIZE
    &&& raw[0] == 0x4E
    &&& raw[1] == 0x45
    &&& raw[2] == 0x53
    &&& raw[3] == 0x1A
}

/// The header's format version (0 for iNES, 2 for NES 2.0).
pub open spec fn ines_version(raw: Seq<u8>) -> u8 {
    (raw[7] >> 2) & 0b11
}

/// Program memory follows the header and, when flag 2 of byte 6 is set, a
/// 512-byte trainer.
pub open spec fn prg_start(raw: Seq<u8>) -> int {
    HEADER_SIZE + if raw[6] & 0b100 != 0 {
        TRAINER_SIZE as int
    } else {
        0
    }
}

pub open spec fn prg_size(raw: Seq<u8>) -> int {
    raw[4] as int * PRG_ROM_PAGE_SIZE
}

pub open spec fn chr_size(raw: Seq<u8>) -> int {
    raw[5] as int * CHR_ROM_PAGE_SIZE
}

/// Four-screen when flag 3 of byte 6 is set, otherwise vertical when flag 0
/// is set, otherwise horizontal.
pub open spec fn mirroring_of(flags: u8) -> Mirroring {
    if flags & 0b1000 != 0 {
        Mirroring::FOUR_SCREEN
    } else if flags & 0b1 != 0 {
        Mirroring::VERTICAL
    } else {
        Mirroring::HORIZONTAL
    }
}

/// Copies `raw[start .. start + len]`.
fn copy_range(raw: &Vec<u8>, start: usize, len: usize) -> (r: Vec<u8>)
    requires
        start + len <= raw@.len(),
    ensures
        r@ == raw@.subrange(start as int, start + len),
{
    let mut r: Vec<u8> = Vec::new();
    let mut i: usize = 0;
    let n = raw.len();
    while i < len
        invariant
            i <= len,
            n == raw@.len(),
            start + len <= raw@.len(),
            r@ == raw@.subrange(start as int, start + i),
        decreases len - i,
    {
        r.push(raw[start + i]);
        i = i + 1;
        assert(r@ =~= raw@.subrange(start as int, start + i));
    }
    r
}

impl Rom {
    /// Decodes an iNES image.
    pub fn new(raw: &Vec<u8>) -> (r: Result<Rom, RomError>)
        ensures
            !is_ines(raw@) <==> r == Err::<Rom, RomError>(RomError::NotINes),
            is_ines(raw@) && ines_version(raw@) != 0 <==> r == Err::<Rom, RomError>(
                RomError::Nes2Unsupported,
            ),
            is_ines(raw@) && ines_version(raw@) == 0 && raw@.len() < prg_start(raw@) + prg_size(
                raw@,
            ) + chr_size(raw@) <==> r == Err::<Rom, RomError>(RomError::Truncated),
            r matches Ok(rom) ==> {
                &&& rom.prg_rom@ == raw@.subrange(prg_start(raw@), prg_start(raw@) + prg_size(raw@))
                &&& rom.chr_rom@ == raw@.subrange(
                    prg_start(raw@) + prg_size(raw@),
                    prg_start(raw@) + prg_size(raw@) + chr_size(raw@),
                )
                &&& rom.screen_mirroring == mirroring_of(raw@[6])
            },
    {
        if raw.len() < HEADER_SIZE || raw[0] != 0x4E || raw[1] != 0x45 || raw[2] != 0x53 || raw[3]
            != 0x1A {
            return Err(RomError::NotINes);
        }
        if (raw[7] >> 2) & 0b11 != 0 {
            return Err(RomError::Nes2Unsupported);
        }
        let flags = raw[6];
        let screen_mirroring = if flags & 0b1000 != 0 {
            Mirroring::FOUR_SCREEN
        } else if flags & 0b1 != 0 {
            Mirroring::VERTICAL
        } else {
            Mirroring::HORIZONTAL
        };
        let prg_rom_size = raw[4] as usize * PRG_ROM_PAGE_SIZE;
        let chr_rom_size = raw[5] as usize * CHR_ROM_PAGE_SIZE;
        let prg_rom_start = HEADER_SIZE + if flags & 0b100 != 0 {
            TRAINER_SIZE
        } else {
            0
        };
        let chr_rom_start = prg_rom_start + prg_rom_size;
        if raw.len() < chr_rom_start || raw.len() - chr_rom_start < chr_rom_size {
            return Err(RomError::Truncated);
        }
        let prg_rom = copy_range(raw, prg_rom_start, prg_rom_size);
        let chr_rom = copy_range(raw, chr_rom_start, chr_rom_size);
        Ok(Rom { prg_rom, chr_rom, screen_mirroring })
    }
}

} // verus!
