use vstd::prelude::*;

verus! {

use crate::ppu::address::{mirror_down, word};

/// A VRAM address latch that takes its low byte first after power-on.
#[derive(Clone, Copy, Debug, Default)]
pub struct AddrRegister {
    pub high_byte: u8,
    pub low_byte: u8,
    /// Whether the next write goes to the high byte.
    pub hi_ptr: bool,
}

impl AddrRegister {
    pub open spec fn spec_get(self) -> int {
        word(self.high_byte, self.low_byte)
    }

    /// Sets both bytes from `data`; the toggle is kept.
    pub fn set(&mut self, data: u16)
        ensures
            final(self).spec_get() == data,
            final(self).hi_ptr == old(self).hi_ptr,
    {
        self.high_byte = (data / 256) as u8;
        self.low_byte = (data % 256) as u8;
    }

    fn fold(&mut self)
        ensures
            final(self).spec_get() == mirror_down(old(self).spec_get()),
            final(self).hi_ptr == old(self).hi_ptr,
    {
        let v = self.get();
        if v > 0x3fff {
            self.set(v % 0x4000);
        }
    }

    /// Writes the byte that the toggle selects, folds the address, and flips the toggle.
    pub fn update(&mut self, data: u8)
        ensures
            final(self).spec_get() == mirror_down(
                if old(self).hi_ptr {
                    word(data, old(self).low_byte)
                } else {
                    word(old(self).high_byte, data)
                },
            ),
            final(self).hi_ptr == !old(self).hi_ptr,
    {
        if self.hi_ptr {
            self.high_byte = data;
        } else {
            self.low_byte = data;
        }
        self.fold();
        self.hi_ptr = !self.hi_ptr;
    }

    /// Advances the address by `inc`, wrapping at 16 bits, then folds it into 14 bits.
    pub fn increment(&mut self, inc: u8)
        ensures
            final(self).spec_get() == mirror_down((old(self).spec_get() + inc) % 0x10000),
            final(self).hi_ptr == old(self).hi_ptr,
    {
        let lo = self.low_byte;
        self.low_byte = self.low_byte.wrapping_add(inc);
        if lo > self.low_byte {
            self.high_byte = self.high_byte.wrapping_add(1);
        }
        self.fold();
    }

    pub fn reset_latch(&mut self)
        ensures
            final(self).spec_get() == old(self).spec_get(),
            final(self).hi_ptr,
    {
        self.hi_ptr = true;
    }

    pub fn get(&self) -> (r: u16)
        ensures
            r == self.spec_get(),
    {
        self.high_byte as u16 * 256 + self.low_byte as u16
    }
}

} // verus!
