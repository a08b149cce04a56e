use vstd::prelude::*;

verus! {

/// The scroll port: two writes, x then y, sequenced by a toggle.
#[derive(Clone, Copy, Debug, PartialEq, Eq, Structural, Default)]
pub struct Scroll {
    pub scroll_x: u8,
    pub scroll_y: u8,
    pub latch: bool,
}

/// The scroll port after writing `data`.
pub open spec fn scroll_written(s: Scroll, data: u8) -> Scroll {
    if !s.latch {
        Scroll { scroll_x: data, latch: true, ..s }
    } else {
        Scroll { scroll_y: data, latch: false, ..s }
    }
}

impl Scroll {
    pub fn new() -> (r: Self)
        ensures
            r == (Scroll { scroll_x: 0, scroll_y: 0, latch: false }),
    {
        Scroll { scroll_x: 0, scroll_y: 0, latch: false }
    }

    pub fn write(&mut self, data: u8)
        ensures
            *final(self) == scroll_written(*old(self), data),
    {
        if !self.latch {
            self.scroll_x = data;
        } else {
            self.scroll_y = data;
        }
        self.latch = !self.latch;
    }

    pub fn reset_latch(&mut self)
        ensures
            *final(self) == (Scroll { latch: false, ..*old(self) }),
    {
        self.latch = false;
    }
}

} // verus!
