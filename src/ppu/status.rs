use vstd::prelude::*;

verus! {

/// Bit of the status register that says a vertical blank has started.
pub const VBLANK_STARTED: u8 = 0b1000_0000;

/// The picture unit's status register.
#[derive(Clone, Copy, Debug, PartialEq, Eq, Structural)]
pub struct Status {
    pub bits: u8,
}

impl Status {
    pub open spec fn without_vblank(self) -> Status {
        Status { bits: self.bits & !VBLANK_STARTED }
    }

    /// A status with no bit set.
    pub fn empty() -> (r: Status)
        ensures
            r.bits == 0,
    {
        Status { bits: 0 }
    }

    pub fn bits(&self) -> (r: u8)
        ensures
            r == self.bits,
    {
        self.bits
    }

    pub fn clear_vblank(&mut self)
        ensures
            *final(self) == old(self).without_vblank(),
    {
        self.bits = self.bits & !VBLANK_STARTED;
    }
}

} // verus!
