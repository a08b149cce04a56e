use vstd::prelude::*;

verus! {

/// The carry flag.
pub const CARRY: u8 = 0b0000_0001;
/// The zero flag.
pub const ZERO: u8 = 0b0000_0010;
/// The interrupt-disable flag.
pub const INTERRUPT_DISABLE: u8 = 0b0000_0100;
/// The decimal-mode flag.
pub const DECIMAL: u8 = 0b0000_1000;
/// The software break flag (only meaningful in a pushed copy).
pub const BREAK: u8 = 0b0001_0000;
/// The second break bit (always set in a pushed copy).
pub const BREAK2: u8 = 0b0010_0000;
/// The overflow flag.
pub const OVERFLOW: u8 = 0b0100_0000;
/// The negative flag.
pub const NEGATIVE: u8 = 0b1000_0000;

/// The status register: eight processor flags packed into one byte.
#[derive(Clone, Copy, Debug, PartialEq, Eq, Structural, Default)]
pub struct ProcessorStatus {
    pub bits: u8,
}

/// `bits` with the flag `mask` set to `on`, every other bit unchanged.
pub open spec fn with_flag(bits: u8, mask: u8, on: bool) -> u8 {
    if on {
        bits | mask
    } else {
        bits & !mask
    }
}

/// `x` reduced to a byte, as wrapping arithmetic does.
pub open spec fn wrap8(x: int) -> u8 {
    (x % 256) as u8
}

/// `x` reduced to 16 bits, as wrapping arithmetic does.
pub open spec fn wrap16(x: int) -> u16 {
    (x % 65536) as u16
}

/// Whether the flag `mask` is set in `bits`.
pub open spec fn has_flag(bits: u8, mask: u8) -> bool {
    bits & mask != 0
}

impl ProcessorStatus {
    /// The register holding exactly the given byte.
    pub fn from_bits_truncate(bits: u8) -> (r: Self)
        ensures
            r.bits == bits,
    {
        ProcessorStatus { bits }
    }

    pub fn bits(&self) -> (r: u8)
        ensures
            r == self.bits,
    {
        self.bits
    }

    /// Whether every bit of `mask` is set.
    pub fn contains(&self, mask: u8) -> (r: bool)
        ensures
            r == (self.bits & mask == mask),
    {
        self.bits & mask == mask
    }

    /// Sets every bit of `mask`.
    pub fn insert(&mut self, mask: u8)
        ensures
            final(self).bits == old(self).bits | mask,
    {
        self.bits = self.bits | mask;
    }

    /// Clears every bit of `mask`.
    pub fn remove(&mut self, mask: u8)
        ensures
            final(self).bits == old(self).bits & !mask,
    {
        self.bits = self.bits & !mask;
    }

    fn set_flag(&mut self, mask: u8, on: bool)
        ensures
            final(self).bits == with_flag(old(self).bits, mask, on),
    {
        if on {
            self.insert(mask)
        } else {
            self.remove(mask)
        }
    }

    /// Builds a register from the eight flags.
    pub fn new(
        carry: bool,
        zero: bool,
        interrupt_disable: bool,
        decimal: bool,
        brk: bool,
        brk2: bool,
        overflow: bool,
        negative: bool,
    ) -> (r: Self)
        ensures
            has_flag(r.bits, CARRY) == carry,
            has_flag(r.bits, ZERO) == zero,
            has_flag(r.bits, INTERRUPT_DISABLE) == interrupt_disable,
            has_flag(r.bits, DECIMAL) == decimal,
            has_flag(r.bits, BREAK) == brk,
            has_flag(r.bits, BREAK2) == brk2,
            has_flag(r.bits, OVERFLOW) == overflow,
            has_flag(r.bits, NEGATIVE) == negative,
    {
        let b: u8 = (if carry { 1u8 } else { 0u8 }) | (if zero { 2u8 } else { 0u8 }) | (
        if interrupt_disable { 4u8 } else { 0u8 }) | (if decimal { 8u8 } else { 0u8 }) | (if brk {
            16u8
        } else {
            0u8
        }) | (if brk2 { 32u8 } else { 0u8 }) | (if overflow { 64u8 } else { 0u8 }) | (if negative {
            128u8
        } else {
            0u8
        });
        assert(has_flag(b, CARRY) == carry && has_flag(b, ZERO) == zero && has_flag(
            b,
            INTERRUPT_DISABLE,
        ) == interrupt_disable && has_flag(b, DECIMAL) == decimal && has_flag(b, BREAK) == brk
            && has_flag(b, BREAK2) == brk2 && has_flag(b, OVERFLOW) == overflow && has_flag(
            b,
            NEGATIVE,
        ) == negative) by (bit_vector)
            requires
                b == (if carry { 1u8 } else { 0u8 }) | (if zero { 2u8 } else { 0u8 }) | (
                if interrupt_disable { 4u8 } else { 0u8 }) | (if decimal { 8u8 } else { 0u8 }) | (
                if brk { 16u8 } else { 0u8 }) | (if brk2 { 32u8 } else { 0u8 }) | (if overflow {
                    64u8
                } else {
                    0u8
                }) | (if negative { 128u8 } else { 0u8 }),
        ;
        ProcessorStatus { bits: b }
    }

    pub fn set_break(&mut self, brk: bool)
        ensures
            final(self).bits == with_flag(old(self).bits, BREAK, brk),
    {
        self.set_flag(BREAK, brk)
    }

    pub fn set_break2(&mut self, brk: bool)
        ensures
            final(self).bits == with_flag(old(self).bits, BREAK2, brk),
    {
        self.set_flag(BREAK2, brk)
    }

    pub fn set_carry(&mut self, carry: bool)
        ensures
            final(self).bits == with_flag(old(self).bits, CARRY, carry),
    {
        self.set_flag(CARRY, carry)
    }

    pub fn set_zero(&mut self, zero: bool)
        ensures
            final(self).bits == with_flag(old(self).bits, ZERO, zero),
    {
        self.set_flag(ZERO, zero)
    }

    pub fn set_negative(&mut self, negative: bool)
        ensures
            final(self).bits == with_flag(old(self).bits, NEGATIVE, negative),
    {
        self.set_flag(NEGATIVE, negative)
    }

    pub fn set_overflow(&mut self, overflow: bool)
        ensures
            final(self).bits == with_flag(old(self).bits, OVERFLOW, overflow),
    {
        self.set_flag(OVERFLOW, overflow)
    }

    pub fn set_decimal(&mut self, decimal: bool)
        ensures
            final(self).bits == with_flag(old(self).bits, DECIMAL, decimal),
    {
        self.set_flag(DECIMAL, decimal)
    }

    pub fn set_interrupt_disable(&mut self, interrupt_disable: bool)
        ensures
            final(self).bits == with_flag(old(self).bits, INTERRUPT_DISABLE, interrupt_disable),
    {
        self.set_flag(INTERRUPT_DISABLE, interrupt_disable)
    }

    /// Whether bit 7 of `int` is set.
    pub fn is_negative(byte: u8) -> (r: bool)
        ensures
            r == (byte >= 0x80),
    {
        let r = byte & 0b1000_0000 != 0;
        assert(r == (byte >= 0x80)) by (bit_vector)
            requires
                r == (byte & 0x80u8 != 0),
        ;
        r
    }
}

} // verus!
