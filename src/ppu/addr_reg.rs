use vstd::prelude::*;

verus! {

/// The picture unit's 14-bit address register, written one byte at a time
/// (high byte first) through a latch.
#[derive(Clone, Copy, Debug)]
pub struct AddrRegister {
    /// High byte, low byte.
    pub value: (u8, u8),
    /// The next write goes to the high byte.
    pub hi_ptr: bool,
}

pub proof fn lemma_low_six_bits(x: u8)
    ensures
        x & 0x3f == x % 64,
{
    assert(x & 0x3f == x % 64) by (bit_vector);
}

impl AddrRegister {
    pub open spec fn get_spec(self) -> nat {
        self.value.0 as nat * 256 + self.value.1 as nat
    }

    /// The register holding address `a` (below 0x4000), latch kept.
    pub open spec fn with_address(self, a: nat) -> AddrRegister {
        AddrRegister { value: ((a / 256) as u8, (a % 256) as u8), hi_ptr: self.hi_ptr }
    }

    /// One byte written through the latch; the address is kept below 0x4000.
    pub open spec fn updated(self, data: u8) -> AddrRegister {
        if self.hi_ptr {
            AddrRegister { value: (data % 64, self.value.1), hi_ptr: false }
        } else {
            AddrRegister { value: (self.value.0 % 64, data), hi_ptr: true }
        }
    }

    /// The address advanced by `inc`, wrapping within 0x4000.
    pub open spec fn incremented(self, inc: u8) -> AddrRegister {
        self.with_address((self.get_spec() + inc as nat) % 0x4000)
    }

    pub fn new() -> (r: AddrRegister)
        ensures
            r == (AddrRegister { value: (0, 0), hi_ptr: true }),
    {
        AddrRegister { value: (0, 0), hi_ptr: true }
    }

    pub fn get(&self) -> (r: u16)
        ensures
            r as nat == self.get_spec(),
    {
        (self.value.0 as u16) * 256 + (self.value.1 as u16)
    }

    pub fn update(&mut self, data: u8)
        ensures
            *final(self) == old(self).updated(data),
    {
        if self.hi_ptr {
            self.value.0 = data;
        } else {
            self.value.1 = data;
        }
        let hi = self.value.0;
        proof {
            lemma_low_six_bits(hi);
        }
        self.value.0 = hi & 0x3f;
        self.hi_ptr = !self.hi_ptr;
    }

    pub fn increment(&mut self, inc: u8)
        ensures
            *final(self) == old(self).incremented(inc),
    {
        let next = (self.get() as u32 + inc as u32) % 0x4000;
        self.value = ((next / 256) as u8, (next % 256) as u8);
    }

    pub fn reset_latch(&mut self)
        ensures
            final(self).value == old(self).value,
            final(self).hi_ptr,
    {
        self.hi_ptr = true;
    }
}

} // verus!
