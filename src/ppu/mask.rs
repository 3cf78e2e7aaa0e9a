use vstd::prelude::*;

verus! {

/// The picture unit's mask register:
///
/// ```text
/// 7  bit  0
/// BGRs bMmG
/// |||| |||+- greyscale
/// |||| ||+-- show background in the leftmost 8 pixels
/// |||| |+--- show sprites in the leftmost 8 pixels
/// |||| +---- show background
/// |||+------ show sprites
/// ||+------- emphasize red
/// |+-------- emphasize green
/// +--------- emphasize blue
/// ```
#[derive(Clone, Copy, Debug, PartialEq, Eq, Structural)]
pub struct Mask {
    pub bits: u8,
}

pub const GREY_SCALE: u8 = 0b0000_0001;
pub const BACKGROUND_LEFT: u8 = 0b0000_0010;
pub const SPRITES_LEFT: u8 = 0b0000_0100;
pub const SHOW_BACKGROUND: u8 = 0b0000_1000;
pub const SHOW_SPRITES: u8 = 0b0001_0000;
pub const EMPH_RED: u8 = 0b0010_0000;
pub const EMPH_GREEN: u8 = 0b0100_0000;
pub const EMPH_BLUE: u8 = 0b1000_0000;

impl Mask {
    /// A mask with no bit set.
    pub fn empty() -> (r: Mask)
        ensures
            r.bits == 0,
    {
        Mask { bits: 0 }
    }

    pub fn set_gsc(&mut self)
        ensures
            final(self).bits == old(self).bits | GREY_SCALE,
    {
        self.bits = self.bits | GREY_SCALE;
    }

    pub fn set_bcl(&mut self)
        ensures
            final(self).bits == old(self).bits | BACKGROUND_LEFT,
    {
        self.bits = self.bits | BACKGROUND_LEFT;
    }

    pub fn set_spl(&mut self)
        ensures
            final(self).bits == old(self).bits | SPRITES_LEFT,
    {
        self.bits = self.bits | SPRITES_LEFT;
    }

    pub fn set_sbg(&mut self)
        ensures
            final(self).bits == old(self).bits | SHOW_BACKGROUND,
    {
        self.bits = self.bits | SHOW_BACKGROUND;
    }

    pub fn set_ssp(&mut self)
        ensures
            final(self).bits == old(self).bits | SHOW_SPRITES,
    {
        self.bits = self.bits | SHOW_SPRITES;
    }

    pub fn set_emr(&mut self)
        ensures
            final(self).bits == old(self).bits | EMPH_RED,
    {
        self.bits = self.bits | EMPH_RED;
    }

    pub fn set_emg(&mut self)
        ensures
            final(self).bits == old(self).bits | EMPH_GREEN,
    {
        self.bits = self.bits | EMPH_GREEN;
    }

    pub fn set_emb(&mut self)
        ensures
            final(self).bits == old(self).bits | EMPH_BLUE,
    {
        self.bits = self.bits | EMPH_BLUE;
    }

    /// Replaces the whole register with `m`.
    pub fn set_mltpl(&mut self, m: u8)
        ensures
            final(self).bits == m,
    {
        self.bits = m;
    }
}

} // verus!
