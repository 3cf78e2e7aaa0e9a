use vstd::prelude::*;

verus! {

/// Bit of the control register that selects a step of 32 (one row) instead
/// of 1 for the data register's address.
pub const VRAM_ADD_INCREMENT: u8 = 0b0000_0100;

/// The picture unit's control register.
#[derive(Clone, Copy, Debug, PartialEq, Eq, Structural)]
pub struct ControlRegister {
    pub bits: u8,
}

impl ControlRegister {
    /// Step the data register's address takes after each access.
    pub open spec fn increment_spec(self) -> u8 {
        if self.bits & VRAM_ADD_INCREMENT == 0 {
            1
        } else {
            32
        }
    }

    pub fn new() -> (r: ControlRegister)
        ensures
            r.bits == 0,
    {
        ControlRegister { bits: 0 }
    }

    pub fn update(&mut self, data: u8)
        ensures
            final(self).bits == data,
    {
        self.bits = data;
    }

    pub fn vram_addr_increment(&self) -> (r: u8)
        ensures
            r == self.increment_spec(),
    {
        if self.bits & VRAM_ADD_INCREMENT == 0 {
            1
        } else {
            32
        }
    }
}

} // verus!
