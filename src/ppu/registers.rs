use vstd::prelude::*;

verus! {

use crate::cpu::processor_status::{has_flag, with_flag};

/// Control port bit: VRAM address step of 32 instead of 1.
pub const VRAM_ADD_INCREMENT: u8 = 0b0000_0100;
/// Control port bit: raise a non-maskable interrupt at vblank entry.
pub const GENERATE_NMI: u8 = 0b1000_0000;

/// Status port bit: sprite overflow.
pub const SPRITE_OVERFLOW: u8 = 0b0010_0000;
/// Status port bit: sprite zero hit.
pub const SPRITE_ZERO_HIT: u8 = 0b0100_0000;
/// Status port bit: vertical blank in progress.
pub const VBLANK_STARTED: u8 = 0b1000_0000;

/// The step by which the VRAM address advances after a data access.
pub open spec fn increment_of(ctrl: u8) -> u8 {
    if has_flag(ctrl, VRAM_ADD_INCREMENT) {
        32
    } else {
        1
    }
}

/// The control port.
#[derive(Clone, Copy, Debug, PartialEq, Eq, Structural, Default)]
pub struct Control {
    pub bits: u8,
}

impl Control {
    pub fn new() -> (r: Self)
        ensures
            r.bits == 0,
    {
        Control { bits: 0 }
    }

    pub fn vram_addr_increment(&self) -> (r: u8)
        ensures
            r == increment_of(self.bits),
    {
        if self.bits & VRAM_ADD_INCREMENT == 0 {
            1
        } else {
            32
        }
    }

    pub fn generate_vblank_nmi(&self) -> (r: bool)
        ensures
            r == has_flag(self.bits, GENERATE_NMI),
    {
        self.bits & GENERATE_NMI != 0
    }

    pub fn update(&mut self, data: u8)
        ensures
            final(self).bits == data,
    {
        self.bits = data;
    }
}

/// The status port.
#[derive(Clone, Copy, Debug, PartialEq, Eq, Structural, Default)]
pub struct Status {
    pub bits: u8,
}

impl Status {
    pub fn new() -> (r: Self)
        ensures
            r.bits == 0,
    {
        Status { bits: 0 }
    }

    pub fn set_vblank_status(&mut self, status: bool)
        ensures
            final(self).bits == with_flag(old(self).bits, VBLANK_STARTED, status),
    {
        if status {
            self.bits = self.bits | VBLANK_STARTED;
        } else {
            self.bits = self.bits & !VBLANK_STARTED;
        }
    }

    pub fn set_sprite_zero_hit(&mut self, status: bool)
        ensures
            final(self).bits == with_flag(old(self).bits, SPRITE_ZERO_HIT, status),
    {
        if status {
            self.bits = self.bits | SPRITE_ZERO_HIT;
        } else {
            self.bits = self.bits & !SPRITE_ZERO_HIT;
        }
    }

    pub fn set_sprite_overflow(&mut self, status: bool)
        ensures
            final(self).bits == with_flag(old(self).bits, SPRITE_OVERFLOW, status),
    {
        if status {
            self.bits = self.bits | SPRITE_OVERFLOW;
        } else {
            self.bits = self.bits & !SPRITE_OVERFLOW;
        }
    }

    pub fn reset_vblank_status(&mut self)
        ensures
            final(self).bits == with_flag(old(self).bits, VBLANK_STARTED, false),
    {
        self.bits = self.bits & !VBLANK_STARTED;
    }

    pub fn is_in_vblank(&self) -> (r: bool)
        ensures
            r == has_flag(self.bits, VBLANK_STARTED),
    {
        self.bits & VBLANK_STARTED != 0
    }

    pub fn snapshot(&self) -> (r: u8)
        ensures
            r == self.bits,
    {
        self.bits
    }
}

/// A colour that the mask port can emphasise.
#[derive(Clone, Copy, Debug, PartialEq, Eq, Structural)]
pub enum Color {
    Red,
    Green,
    Blue,
}

/// The mask port.
#[derive(Clone, Copy, Debug, PartialEq, Eq, Structural, Default)]
pub struct Mask {
    pub bits: u8,
}

/// The colours emphasised by mask bits 5 (red), 7 (blue) and 6 (green), in that order.
pub open spec fn emphasised(bits: u8) -> Seq<Color> {
    let r = if has_flag(bits, 0x20) { seq![Color::Red] } else { Seq::empty() };
    let b = if has_flag(bits, 0x80) { seq![Color::Blue] } else { Seq::empty() };
    let g = if has_flag(bits, 0x40) { seq![Color::Green] } else { Seq::empty() };
    r + b + g
}

impl Mask {
    pub fn new() -> (r: Self)
        ensures
            r.bits == 0,
    {
        Mask { bits: 0 }
    }

    pub fn is_grayscale(&self) -> (r: bool)
        ensures
            r == has_flag(self.bits, 0x01),
    {
        self.bits & 0x01 != 0
    }

    pub fn leftmost_8pxl_background(&self) -> (r: bool)
        ensures
            r == has_flag(self.bits, 0x02),
    {
        self.bits & 0x02 != 0
    }

    pub fn leftmost_8pxl_sprite(&self) -> (r: bool)
        ensures
            r == has_flag(self.bits, 0x04),
    {
        self.bits & 0x04 != 0
    }

    pub fn show_background(&self) -> (r: bool)
        ensures
            r == has_flag(self.bits, 0x08),
    {
        self.bits & 0x08 != 0
    }

    pub fn show_sprites(&self) -> (r: bool)
        ensures
            r == has_flag(self.bits, 0x10),
    {
        self.bits & 0x10 != 0
    }

    pub fn emphasise(&self) -> (r: Vec<Color>)
        ensures
            r@ == emphasised(self.bits),
    {
        let mut result: Vec<Color> = Vec::new();
        if self.bits & 0x20 != 0 {
            result.push(Color::Red);
        }
        if self.bits & 0x80 != 0 {
            result.push(Color::Blue);
        }
        if self.bits & 0x40 != 0 {
            result.push(Color::Green);
        }
        assert(result@ =~= emphasised(self.bits));
        result
    }

    pub fn update(&mut self, data: u8)
        ensures
            final(self).bits == data,
    {
        self.bits = data;
    }
}

} // verus!
