use vstd::prelude::*;

verus! {

use crate::cpu::interrupt::InterruptType;
use crate::cpu::processor_status::{has_flag, wrap16};
use crate::ppu::registers::{GENERATE_NMI, VBLANK_STARTED};
use crate::ppu::{
    after_read,
    after_tick,
    after_write,
    ppu_wf,
    read_error,
    read_value,
    write_error,
    PpuError,
    PpuView,
    PPU,
};
use crate::rom::Rom;

pub const RAM: u16 = 0x0000;
pub const RAM_MIRRORS_END: u16 = 0x1FFF;
pub const PPU_REGISTERS: u16 = 0x2000;
pub const PPU_REGISTERS_MIRRORS_END: u16 = 0x3FFF;
pub const OAM_DMA: u16 = 0x4014;
pub const PRG_ROM: u16 = 0x8000;

/// A fatal access on the bus.
#[derive(Clone, Copy, Debug, PartialEq, Eq, Structural)]
pub enum BusError {
    /// A write into cartridge ROM space.
    RomWrite(u16),
    /// A misuse of the graphics unit's register window.
    Ppu(PpuError),
}

/// The bus as plain values.
pub struct BusView {
    pub ram: Seq<u8>,
    pub prg: Seq<u8>,
    pub ppu: PpuView,
    pub cycles: u64,
}

/// Owns RAM, cartridge program data and the graphics unit, and routes CPU accesses to them.
#[derive(Clone, Debug)]
pub struct MemoryBus {
    memory: Vec<u8>,
    prg_rom: Vec<u8>,
    pub ppu: PPU,
    cycles: u64,
}

impl View for MemoryBus {
    type V = BusView;

    closed spec fn view(&self) -> BusView {
        BusView { ram: self.memory@, prg: self.prg_rom@, ppu: self.ppu@, cycles: self.cycles }
    }
}

pub open spec fn bus_wf(b: BusView) -> bool {
    b.ram.len() == 2048 && ppu_wf(b.ppu)
}

pub open spec fn in_ram(a: u16) -> bool {
    a <= RAM_MIRRORS_END
}

pub open spec fn in_ppu(a: u16) -> bool {
    (PPU_REGISTERS <= a <= PPU_REGISTERS_MIRRORS_END) || a == OAM_DMA
}

pub open spec fn in_rom(a: u16) -> bool {
    a >= PRG_ROM
}

/// The graphics-unit port that `a` reaches: the first range repeats every 8 bytes.
pub open spec fn ppu_register(a: u16) -> u16 {
    if a == OAM_DMA {
        a
    } else {
        (0x2000 + a % 8) as u16
    }
}

/// Offset into program data of ROM address `a`; a 16 KiB image repeats across 32 KiB.
pub open spec fn rom_index(prg_len: nat, a: u16) -> int {
    let i = a - PRG_ROM;
    if prg_len == 0x4000 && i >= 0x4000 {
        i % 0x4000
    } else {
        i
    }
}

/// The byte at ROM address `a`; past the end of the image, 0.
pub open spec fn rom_byte(prg: Seq<u8>, a: u16) -> u8 {
    let i = rom_index(prg.len(), a);
    if i < prg.len() {
        prg[i]
    } else {
        0
    }
}

/// A read of `a`: the byte and the bus afterwards, or the fatal error.
pub open spec fn bus_read(b: BusView, a: u16) -> Result<(u8, BusView), BusError> {
    if in_ram(a) {
        Ok((b.ram[(a % 0x800) as int], b))
    } else if in_ppu(a) {
        let reg = ppu_register(a);
        match read_error(reg) {
            Some(e) => Err(BusError::Ppu(e)),
            None => Ok((read_value(b.ppu, reg), BusView { ppu: after_read(b.ppu, reg), ..b })),
        }
    } else if in_rom(a) {
        Ok((rom_byte(b.prg, a), b))
    } else {
        Ok((0, b))
    }
}

/// A write of `v` to `a`: the bus afterwards, or the fatal error.
pub open spec fn bus_write(b: BusView, a: u16, v: u8) -> Result<BusView, BusError> {
    if in_ram(a) {
        Ok(BusView { ram: b.ram.update((a % 0x800) as int, v), ..b })
    } else if in_ppu(a) {
        let reg = ppu_register(a);
        match write_error(b.ppu, reg) {
            Some(e) => Err(BusError::Ppu(e)),
            None => Ok(BusView { ppu: after_write(b.ppu, reg, v), ..b }),
        }
    } else if in_rom(a) {
        Err(BusError::RomWrite(a))
    } else {
        Ok(b)
    }
}

/// A little-endian read of `a` and the address after it.
pub open spec fn bus_read_word(b: BusView, a: u16) -> Result<(u16, BusView), BusError> {
    match bus_read(b, a) {
        Err(e) => Err(e),
        Ok((lo, b1)) => match bus_read(b1, wrap16(a + 1)) {
            Err(e) => Err(e),
            Ok((hi, b2)) => Ok(((hi * 256 + lo) as u16, b2)),
        },
    }
}

/// A little-endian write of `w` to `a` and the address after it.
pub open spec fn bus_write_word(b: BusView, a: u16, w: u16) -> Result<BusView, BusError> {
    match bus_write(b, a, (w % 256) as u8) {
        Err(e) => Err(e),
        Ok(b1) => bus_write(b1, wrap16(a + 1), (w / 256) as u8),
    }
}

/// The bus after `cpu_cycles` CPU cycles: the graphics unit runs three cycles for each.
pub open spec fn bus_ticked(b: BusView, cpu_cycles: u8) -> BusView {
    BusView {
        ppu: after_tick(b.ppu, (cpu_cycles * 3) as u8).0,
        cycles: ((b.cycles + cpu_cycles) % 0x1_0000_0000_0000_0000) as u64,
        ..b
    }
}

impl MemoryBus {
    pub fn new(rom: Rom) -> (r: Self)
        ensures
            bus_wf(r@),
            r@.ram == Seq::new(2048, |i: int| 0u8),
            r@.prg == rom.prg_rom@,
            r@.ppu == PPU::new_spec(rom.chr_rom@, rom.screen_mirroring),
            r@.cycles == 0,
    {
        let ppu = PPU::new(rom.chr_rom, rom.screen_mirroring);
        let memory: Vec<u8> = vec![0u8; 2048];
        assert(memory@ =~= Seq::new(2048, |i: int| 0u8));
        MemoryBus { memory, prg_rom: rom.prg_rom, ppu, cycles: 0 }
    }

    /// Takes the pending interrupt request of the graphics unit, if any.
    pub fn poll_nmi_status(&mut self) -> (r: Option<InterruptType>)
        requires
            bus_wf(old(self)@),
        ensures
            bus_wf(final(self)@),
            r == old(self)@.ppu.nmi,
            final(self)@ == (BusView { ppu: PpuView { nmi: None, ..old(self)@.ppu }, ..old(self)@ }),
    {
        self.ppu.take_nmi()
    }

    pub fn read_byte(&mut self, address: u16) -> (r: Result<u8, BusError>)
        requires
            bus_wf(old(self)@),
        ensures
            bus_wf(final(self)@),
            match bus_read(old(self)@, address) {
                Ok((v, b)) => r == Ok::<u8, BusError>(v) && final(self)@ == b,
                Err(e) => r == Err::<u8, BusError>(e) && final(self)@ == old(self)@,
            },
    {
        if address <= RAM_MIRRORS_END {
            Ok(self.memory[(address % 0x800) as usize])
        } else if address <= PPU_REGISTERS_MIRRORS_END || address == OAM_DMA {
            let reg = if address == OAM_DMA {
                address
            } else {
                0x2000 + address % 8
            };
            match self.ppu.read_register(reg) {
                Ok(v) => Ok(v),
                Err(e) => Err(BusError::Ppu(e)),
            }
        } else if address >= PRG_ROM {
            Ok(self.read_from_rom(address))
        } else {
            Ok(0)
        }
    }

    pub fn write_byte(&mut self, address: u16, data: u8) -> (r: Result<(), BusError>)
        requires
            bus_wf(old(self)@),
        ensures
            bus_wf(final(self)@),
            address >= PRG_ROM ==> r == Err::<(), BusError>(BusError::RomWrite(address)),
            match bus_write(old(self)@, address, data) {
                Ok(b) => r == Ok::<(), BusError>(()) && final(self)@ == b,
                Err(e) => r == Err::<(), BusError>(e) && final(self)@ == old(self)@,
            },
    {
        if address <= RAM_MIRRORS_END {
            self.memory.set((address % 0x800) as usize, data);
            Ok(())
        } else if address <= PPU_REGISTERS_MIRRORS_END || address == OAM_DMA {
            let reg = if address == OAM_DMA {
                address
            } else {
                0x2000 + address % 8
            };
            match self.ppu.write_register(reg, data) {
                Ok(()) => Ok(()),
                Err(e) => Err(BusError::Ppu(e)),
            }
        } else if address >= PRG_ROM {
            Err(BusError::RomWrite(address))
        } else {
            Ok(())
        }
    }

    pub fn read_word(&mut self, address: u16) -> (r: Result<u16, BusError>)
        requires
            bus_wf(old(self)@),
        ensures
            bus_wf(final(self)@),
            match bus_read_word(old(self)@, address) {
                Ok((v, b)) => r == Ok::<u16, BusError>(v) && final(self)@ == b,
                Err(e) => r == Err::<u16, BusError>(e),
            },
    {
        let lo = match self.read_byte(address) {
            Ok(v) => v,
            Err(e) => {
                return Err(e);
            },
        };
        let hi = match self.read_byte(address.wrapping_add(1)) {
            Ok(v) => v,
            Err(e) => {
                return Err(e);
            },
        };
        Ok(hi as u16 * 256 + lo as u16)
    }

    pub fn write_word(&mut self, address: u16, word: u16) -> (r: Result<(), BusError>)
        requires
            bus_wf(old(self)@),
        ensures
            bus_wf(final(self)@),
            match bus_write_word(old(self)@, address, word) {
                Ok(b) => r == Ok::<(), BusError>(()) && final(self)@ == b,
                Err(e) => r == Err::<(), BusError>(e),
            },
    {
        let ghost b0 = self@;
        match self.write_byte(address, (word % 256) as u8) {
            Ok(()) => {},
            Err(e) => {
                return Err(e);
            },
        }
        let ghost b1 = self@;
        assert(bus_write(b0, address, (word % 256) as u8) == Ok::<BusView, BusError>(b1));
        self.write_byte(address.wrapping_add(1), (word / 256) as u8)
    }

    /// The byte of cartridge program data that ROM address `address` reaches.
    pub fn read_from_rom(&self, address: u16) -> (r: u8)
        requires
            address >= PRG_ROM,
        ensures
            r == rom_byte(self@.prg, address),
    {
        let mut i = address - PRG_ROM;
        if self.prg_rom.len() == 0x4000 && i >= 0x4000 {
            i = i % 0x4000;
        }
        if (i as usize) < self.prg_rom.len() {
            self.prg_rom[i as usize]
        } else {
            0
        }
    }

    /// Advances the clock by `cycles` CPU cycles, and the graphics unit by three times as many.
    pub fn tick(&mut self, cycles: u8)
        requires
            bus_wf(old(self)@),
            cycles <= 85,
        ensures
            bus_wf(final(self)@),
            final(self)@ == bus_ticked(old(self)@, cycles),
    {
        self.cycles = self.cycles.wrapping_add(cycles as u64);
        self.ppu.tick(cycles * 3);
    }

    /// CPU cycles counted since power-on, modulo 2^64.
    pub fn cycles(&self) -> (r: u64)
        ensures
            r == self@.cycles,
    {
        self.cycles
    }
}

/// A byte written anywhere in the 8 KiB RAM window reads back at every address of the
/// window that is congruent to it modulo 0x800.
pub proof fn lemma_ram_mirroring(b: BusView, a: u16, c: u16, v: u8)
    requires
        bus_wf(b),
        a <= RAM_MIRRORS_END,
        c <= RAM_MIRRORS_END,
        a % 0x800 == c % 0x800,
    ensures
        match bus_write(b, a, v) {
            Ok(b1) => match bus_read(b1, c) {
                Ok((r, _)) => r == v,
                Err(_) => false,
            },
            Err(_) => false,
        },
{
}

/// A word written to RAM reads back unchanged when both of its bytes lie in the RAM window.
pub proof fn lemma_word_round_trip(b: BusView, a: u16, w: u16)
    requires
        bus_wf(b),
        a < RAM_MIRRORS_END,
    ensures
        match bus_write_word(b, a, w) {
            Ok(b1) => match bus_read_word(b1, a) {
                Ok((r, _)) => r == w,
                Err(_) => false,
            },
            Err(_) => false,
        },
{
    let lo = (w % 256) as u8;
    let hi = (w / 256) as u8;
    let b1 = BusView { ram: b.ram.update((a % 0x800) as int, lo), ..b };
    let b2 = BusView { ram: b1.ram.update(((a + 1) % 0x800) as int, hi), ..b1 };
    assert(wrap16(a + 1) == a + 1);
    assert(bus_write(b, a, lo) == Ok::<BusView, BusError>(b1));
    assert(bus_write(b1, wrap16(a + 1), hi) == Ok::<BusView, BusError>(b2));
    assert(b2.ram[(a % 0x800) as int] == lo);
    assert(b2.ram[((a + 1) % 0x800) as int] == hi);
    assert(bus_read(b2, a) == Ok::<(u8, BusView), BusError>((lo, b2)));
    assert(bus_read(b2, wrap16(a + 1)) == Ok::<(u8, BusView), BusError>((hi, b2)));
}

/// Enabling interrupt generation through the control port while vblank is already on
/// leaves an interrupt pending at once, without any further tick.
pub proof fn lemma_nmi_on_enable(b: BusView, v: u8)
    requires
        bus_wf(b),
        has_flag(b.ppu.status, VBLANK_STARTED),
        !has_flag(b.ppu.ctrl, GENERATE_NMI),
        has_flag(v, GENERATE_NMI),
    ensures
        match bus_write(b, PPU_REGISTERS, v) {
            Ok(b1) => b1.ppu.nmi == Some(InterruptType::NMI),
            Err(_) => false,
        },
{
}

} // verus!
