use vstd::prelude::*;

verus! {

/// The picture unit's scroll register: the first write after a latch reset
/// sets the horizontal offset, later ones the vertical offset.
#[derive(Clone, Copy, Debug)]
pub struct ScrollReg {
    /// Horizontal offset, vertical offset.
    pub value: (u8, u8),
    /// The next write sets the horizontal offset.
    pub hrz_pt: bool,
}

/// Largest vertical offset that is a visible scanline.
pub const MAX_VERTICAL: u8 = 239;

impl ScrollReg {
    /// Vertical offset stored for a written byte: kept when it is a visible
    /// scanline, otherwise `239 - data` modulo 256.
    pub open spec fn vertical_of(data: u8) -> u8 {
        if data <= MAX_VERTICAL {
            data
        } else {
            (MAX_VERTICAL as int - data as int + 256) as u8
        }
    }

    pub open spec fn written(self, data: u8) -> ScrollReg {
        if self.hrz_pt {
            ScrollReg { value: (data, self.value.1), hrz_pt: false }
        } else {
            ScrollReg { value: (self.value.0, Self::vertical_of(data)), hrz_pt: false }
        }
    }

    pub fn new() -> (r: ScrollReg)
        ensures
            r == (ScrollReg { value: (0, 0), hrz_pt: true }),
    {
        ScrollReg { value: (0, 0), hrz_pt: true }
    }

    pub fn write(&mut self, data: u8)
        ensures
            *final(self) == old(self).written(data),
    {
        if self.hrz_pt {
            self.value.0 = data;
            self.hrz_pt = false;
        } else {
            if data <= MAX_VERTICAL {
                self.value.1 = data;
            } else {
                self.value.1 = MAX_VERTICAL.wrapping_sub(data);
            }
        }
    }

    pub fn reset_latch(&mut self)
        ensures
            final(self).value == old(self).value,
            final(self).hrz_pt,
    {
        self.hrz_pt = true;
    }
}

} // verus!
