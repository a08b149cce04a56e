use vstd::prelude::*;

verus! {

/// The 16-bit value of a high and a low byte.
pub open spec fn word(hi: u8, lo: u8) -> int {
    hi * 256 + lo
}

/// Addresses above the graphics unit's 14-bit space fold back into it.
pub open spec fn mirror_down(v: int) -> int {
    if v > 0x3fff {
        v % 0x4000
    } else {
        v
    }
}

/// The port holding the 16-bit value `v` and toggle `pointer`.
pub open spec fn split(v: int, pointer: bool) -> Address {
    Address { value: ((v / 256) as u8, (v % 256) as u8), pointer }
}

/// The port after moving on by `inc`, wrapping at 16 bits and folding into 14 bits.
pub open spec fn incremented(a: Address, inc: u8) -> Address {
    split(mirror_down((a.spec_get() + inc) % 0x10000), a.pointer)
}

/// The port after a write of `data` to the byte that the toggle selects.
pub open spec fn updated(a: Address, data: u8) -> Address {
    split(
        mirror_down(
            if !a.pointer {
                word(data, a.value.1)
            } else {
                word(a.value.0, data)
            },
        ),
        !a.pointer,
    )
}

/// The VRAM address port: written high byte first, then low byte, sequenced by a toggle.
#[derive(Clone, Copy, Debug, Default)]
pub struct Address {
    /// The high and the low byte.
    pub value: (u8, u8),
    /// Whether the next write goes to the low byte.
    pub pointer: bool,
}

impl Address {
    pub open spec fn spec_get(self) -> int {
        word(self.value.0, self.value.1)
    }

    /// Sets both bytes from `address`; the toggle is kept.
    pub fn set(&mut self, address: u16)
        ensures
            *final(self) == split(address as int, old(self).pointer),
    {
        self.value = ((address / 256) as u8, (address % 256) as u8);
    }

    pub fn get(&self) -> (r: u16)
        ensures
            r == self.spec_get(),
    {
        self.value.0 as u16 * 256 + self.value.1 as u16
    }

    fn set_mirror_down(&mut self)
        requires
            0 <= old(self).spec_get() < 0x10000,
        ensures
            *final(self) == split(mirror_down(old(self).spec_get()), old(self).pointer),
    {
        let v = self.get();
        if v > 0x3fff {
            self.set(v % 0x4000);
        }
    }

    /// Advances the address by `value`, wrapping at 16 bits, then folds it into 14 bits.
    pub fn increment(&mut self, value: u8)
        ensures
            *final(self) == incremented(*old(self), value),
    {
        let lo = self.value.1;
        let new_lo = lo.wrapping_add(value);
        let mut hi = self.value.0;
        if lo > new_lo {
            hi = hi.wrapping_add(1);
        }
        self.value = (hi, new_lo);
        self.set_mirror_down()
    }

    /// Writes the byte that the toggle selects, folds the address, and flips the toggle.
    pub fn update(&mut self, data: u8)
        ensures
            *final(self) == updated(*old(self), data),
    {
        if !self.pointer {
            self.value.0 = data;
        } else {
            self.value.1 = data;
        }
        self.set_mirror_down();
        self.pointer = !self.pointer;
    }

    pub fn reset_latch(&mut self)
        ensures
            *final(self) == (Address { pointer: false, ..*old(self) }),
    {
        self.pointer = false
    }
}

impl From<u16> for Address {
    fn from(address: u16) -> (r: Self) {
        let mut addr = Address { value: (0, 0), pointer: false };
        addr.set(address);
        addr
    }
}

impl vstd::std_specs::convert::FromSpecImpl<u16> for Address {
    open spec fn obeys_from_spec() -> bool {
        true
    }

    open spec fn from_spec(v: u16) -> Self {
        Address { value: ((v / 256) as u8, (v % 256) as u8), pointer: false }
    }
}

} // verus!
