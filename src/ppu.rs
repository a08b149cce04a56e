pub mod address;
pub mod address_register;
pub mod registers;
pub mod scroll;

use vstd::prelude::*;

verus! {

use crate::cpu::interrupt::InterruptType;
use crate::cpu::processor_status::{has_flag, with_flag, wrap8};
use crate::rom::Mirroring;
use self::address::{incremented, updated, Address};
use self::registers::{increment_of, Control, Mask, Status, GENERATE_NMI, VBLANK_STARTED};
use self::scroll::{scroll_written, Scroll};

/// Dots per scanline.
pub const CYCLES_PER_LINE: u16 = 341;
/// Scanline at which vertical blank starts.
pub const VBLANK_LINE: u16 = 241;
/// Scanlines per frame.
pub const LINES_PER_FRAME: u16 = 262;

/// A misuse of the graphics unit's register window.
#[derive(Clone, Copy, Debug, PartialEq, Eq, Structural)]
pub enum PpuError {
    /// A read of a port that can only be written.
    WriteOnlyRegister(u16),
    /// A write of the status port.
    ReadOnlyRegister(u16),
    /// A data-port write aimed at character ROM (its address in the unit's space).
    ChrRomWrite(u16),
    /// An address that is no register of the unit, or a port this core does not serve.
    UnsupportedRegister(u16),
}

/// The graphics unit as plain values.
pub struct PpuView {
    pub palette: Seq<u8>,
    pub vram: Seq<u8>,
    pub chr: Seq<u8>,
    pub oam: Seq<u8>,
    pub oam_addr: u8,
    pub mirroring: Mirroring,
    pub buffer: u8,
    pub nmi: Option<InterruptType>,
    pub ctrl: u8,
    pub mask: u8,
    pub status: u8,
    pub scroll: Scroll,
    pub address: Address,
    pub scanline: u16,
    pub cycles: u16,
}

/// The graphics unit: its memories, ports, scan position and pending interrupt.
#[derive(Clone, Debug)]
pub struct PPU {
    palette_table: Vec<u8>,
    vram: Vec<u8>,
    chr_rom: Vec<u8>,
    oam_addr: u8,
    oam_data: Vec<u8>,
    mirroring: Mirroring,
    buffer: u8,
    nmi_interrupt: Option<InterruptType>,
    ctrl: Control,
    mask: Mask,
    status: Status,
    scroll: Scroll,
    address: Address,
    scanline: u16,
    cycles: u16,
}

impl View for PPU {
    type V = PpuView;

    closed spec fn view(&self) -> PpuView {
        PpuView {
            palette: self.palette_table@,
            vram: self.vram@,
            chr: self.chr_rom@,
            oam: self.oam_data@,
            oam_addr: self.oam_addr,
            mirroring: self.mirroring,
            buffer: self.buffer,
            nmi: self.nmi_interrupt,
            ctrl: self.ctrl.bits,
            mask: self.mask.bits,
            status: self.status.bits,
            scroll: self.scroll,
            address: self.address,
            scanline: self.scanline,
            cycles: self.cycles,
        }
    }
}

/// Sizes of the unit's memories, and the bounds of its scan position.
pub open spec fn ppu_wf(p: PpuView) -> bool {
    &&& p.palette.len() == 32
    &&& p.vram.len() == 2048
    &&& p.oam.len() == 256
    &&& p.scanline < LINES_PER_FRAME
    &&& p.cycles < 596
}

/// Index into the 2 KiB name-table memory of the unit address `a` (in `0x2000..=0x3eff`).
pub open spec fn vram_index(m: Mirroring, a: int) -> int {
    let i = if a >= 0x3000 {
        a - 0x3000
    } else {
        a - 0x2000
    };
    let table = i / 0x400;
    match m {
        Mirroring::Horizontal => if table == 0 {
            i
        } else if table == 3 {
            i - 0x800
        } else {
            i - 0x400
        },
        _ => i % 0x800,
    }
}

/// Index into palette memory of the unit address `a` (in `0x3f00..=0x3fff`).
pub open spec fn palette_index(a: int) -> int {
    (a - 0x3f00) % 32
}

/// The ports that can be read.
pub open spec fn readable_port(reg: u16) -> bool {
    reg == 0x2002 || reg == 0x2004 || reg == 0x2007
}

/// The ports that can only be written.
pub open spec fn write_only_port(reg: u16) -> bool {
    reg == 0x2000 || reg == 0x2001 || reg == 0x2003 || reg == 0x2005 || reg == 0x2006 || reg
        == 0x4014
}

/// The error a read of `reg` raises, if any.
pub open spec fn read_error(reg: u16) -> Option<PpuError> {
    if readable_port(reg) {
        None
    } else if write_only_port(reg) {
        Some(PpuError::WriteOnlyRegister(reg))
    } else {
        Some(PpuError::UnsupportedRegister(reg))
    }
}

/// The byte a read of readable port `reg` returns.
pub open spec fn read_value(p: PpuView, reg: u16) -> u8 {
    if reg == 0x2002 {
        p.status
    } else if reg == 0x2004 {
        p.oam[p.oam_addr as int]
    } else {
        let a = p.address.spec_get();
        if a < 0x3f00 {
            p.buffer
        } else {
            p.palette[palette_index(a)]
        }
    }
}


/// The unit after a read of readable port `reg`.
pub open spec fn after_read(p: PpuView, reg: u16) -> PpuView {
    if reg == 0x2002 {
        PpuView {
            status: with_flag(p.status, VBLANK_STARTED, false),
            address: Address { pointer: false, ..p.address },
            scroll: Scroll { latch: false, ..p.scroll },
            ..p
        }
    } else if reg == 0x2004 {
        p
    } else {
        let a = p.address.spec_get();
        let buffer = if a < 0x2000 {
            if a < p.chr.len() {
                p.chr[a]
            } else {
                0
            }
        } else if a < 0x3f00 {
            p.vram[vram_index(p.mirroring, a)]
        } else {
            p.buffer
        };
        PpuView { buffer, address: incremented(p.address, increment_of(p.ctrl)), ..p }
    }
}

/// The error a write of `reg` raises, if any.
pub open spec fn write_error(p: PpuView, reg: u16) -> Option<PpuError> {
    if reg == 0x2002 {
        Some(PpuError::ReadOnlyRegister(reg))
    } else if reg == 0x2007 && p.address.spec_get() < 0x2000 {
        Some(PpuError::ChrRomWrite(p.address.spec_get() as u16))
    } else if 0x2000 <= reg <= 0x2007 {
        None
    } else {
        Some(PpuError::UnsupportedRegister(reg))
    }
}

/// The pending interrupt after the control port goes from `before` to `after`: enabling
/// interrupt generation while vblank is already on raises one at once.
pub open spec fn nmi_after_control(p: PpuView, after: u8) -> Option<InterruptType> {
    if !has_flag(p.ctrl, GENERATE_NMI) && has_flag(after, GENERATE_NMI) && has_flag(
        p.status,
        VBLANK_STARTED,
    ) {
        Some(InterruptType::NMI)
    } else {
        p.nmi
    }
}

/// The unit after a write of `data` to writable port `reg`.
pub open spec fn after_write(p: PpuView, reg: u16, data: u8) -> PpuView {
    if reg == 0x2000 {
        PpuView { ctrl: data, nmi: nmi_after_control(p, data), ..p }
    } else if reg == 0x2001 {
        PpuView { mask: data, ..p }
    } else if reg == 0x2003 {
        PpuView { oam_addr: data, ..p }
    } else if reg == 0x2004 {
        PpuView {
            oam: p.oam.update(p.oam_addr as int, data),
            oam_addr: wrap8(p.oam_addr + 1),
            ..p
        }
    } else if reg == 0x2005 {
        PpuView { scroll: scroll_written(p.scroll, data), ..p }
    } else if reg == 0x2006 {
        PpuView { address: updated(p.address, data), ..p }
    } else {
        let a = p.address.spec_get();
        let moved = incremented(p.address, increment_of(p.ctrl));
        if a < 0x3f00 {
            PpuView {
                vram: p.vram.update(vram_index(p.mirroring, a), data),
                address: moved,
                ..p
            }
        } else {
            PpuView { palette: p.palette.update(palette_index(a), data), address: moved, ..p }
        }
    }
}

/// The unit after `n` more of its cycles, and whether a frame was completed.
pub open spec fn after_tick(p: PpuView, n: u8) -> (PpuView, bool) {
    let c = p.cycles + n;
    if c < CYCLES_PER_LINE {
        (PpuView { cycles: c as u16, ..p }, false)
    } else {
        let line = p.scanline + 1;
        let moved = PpuView { cycles: (c - CYCLES_PER_LINE) as u16, scanline: line as u16, ..p };
        let entered = if line == VBLANK_LINE {
            PpuView {
                status: with_flag(p.status, VBLANK_STARTED, true),
                nmi: if has_flag(p.ctrl, GENERATE_NMI) {
                    Some(InterruptType::NMI)
                } else {
                    p.nmi
                },
                ..moved
            }
        } else {
            moved
        };
        if line >= LINES_PER_FRAME {
            (
                PpuView {
                    scanline: 0,
                    status: with_flag(entered.status, VBLANK_STARTED, false),
                    ..entered
                },
                true,
            )
        } else {
            (entered, false)
        }
    }
}

/// Colour index (0 to 3) of pixel (`x`, `y`) of tile `tile_n` in pattern table `bank`: the
/// tile's byte `y` gives the high bit and byte `y + 8` the low bit, column 0 being bit 7.
pub open spec fn tile_pixel(chr: Seq<u8>, bank: int, tile_n: int, x: int, y: int) -> u8 {
    let base = bank * 0x1000 + tile_n * 16;
    let shift = (7 - x) as u8;
    (((chr[base + y] >> shift) & 1) * 2 + ((chr[base + y + 8] >> shift) & 1)) as u8
}

impl PPU {
    /// The 8x8 pixels of tile `tile_n` in pattern table `bank`, row by row, as colour indices.
    pub fn show_tile(&self, bank: usize, tile_n: usize) -> (r: Vec<u8>)
        requires
            bank <= 1,
            bank * 0x1000 + tile_n * 16 + 16 <= self@.chr.len(),
        ensures
            r@.len() == 64,
            forall|y: int, x: int|
                0 <= y < 8 && 0 <= x < 8 ==> #[trigger] r@[y * 8 + x] == tile_pixel(
                    self@.chr,
                    bank as int,
                    tile_n as int,
                    x,
                    y,
                ),
    {
        let n = self.chr_rom.len();
        assert(bank * 0x1000 + tile_n * 16 + 16 <= n);
        let base = bank * 0x1000 + tile_n * 16;
        let mut frame: Vec<u8> = Vec::new();
        let mut y: usize = 0;
        while y < 8
            invariant
                y <= 8,
                base == bank * 0x1000 + tile_n * 16,
                base + 16 <= self.chr_rom@.len(),
                frame@.len() == y * 8,
                forall|yy: int, xx: int|
                    0 <= yy < y && 0 <= xx < 8 ==> #[trigger] frame@[yy * 8 + xx] == tile_pixel(
                        self.chr_rom@,
                        bank as int,
                        tile_n as int,
                        xx,
                        yy,
                    ),
            decreases 8 - y,
        {
            let upper = self.chr_rom[base + y];
            let lower = self.chr_rom[base + y + 8];
            let mut x: usize = 0;
            while x < 8
                invariant
                    y < 8,
                    x <= 8,
                    base + 16 <= self.chr_rom@.len(),
                    upper == self.chr_rom@[base + y],
                    lower == self.chr_rom@[base + y + 8],
                    base == bank * 0x1000 + tile_n * 16,
                    frame@.len() == y * 8 + x,
                    forall|yy: int, xx: int|
                        (0 <= yy < y && 0 <= xx < 8) || (yy == y && 0 <= xx < x)
                            ==> #[trigger] frame@[yy * 8 + xx] == tile_pixel(
                            self.chr_rom@,
                            bank as int,
                            tile_n as int,
                            xx,
                            yy,
                        ),
                decreases 8 - x,
            {
                let shift = (7 - x) as u8;
                let hi: u8 = (upper >> shift) & 1;
                let lo: u8 = (lower >> shift) & 1;
                assert(hi <= 1 && lo <= 1) by (bit_vector)
                    requires
                        hi == (upper >> shift) & 1,
                        lo == (lower >> shift) & 1,
                ;
                let value = hi * 2 + lo;
                frame.push(value);
                x = x + 1;
            }
            y = y + 1;
        }
        frame
    }

    /// The unit at power-on.
    pub open spec fn new_spec(chr: Seq<u8>, mirroring: Mirroring) -> PpuView {
        PpuView {
            palette: Seq::new(32, |i: int| 0u8),
            vram: Seq::new(2048, |i: int| 0u8),
            chr,
            oam: Seq::new(256, |i: int| 0u8),
            oam_addr: 0,
            mirroring,
            buffer: 0,
            nmi: None,
            ctrl: 0,
            mask: 0,
            status: 0,
            scroll: Scroll { scroll_x: 0, scroll_y: 0, latch: false },
            address: Address { value: (0, 0), pointer: false },
            scanline: 0,
            cycles: 0,
        }
    }

    pub fn new(chr_rom: Vec<u8>, mirroring: Mirroring) -> (r: Self)
        ensures
            ppu_wf(r@),
            r@ == Self::new_spec(chr_rom@, mirroring),
    {
        let vram: Vec<u8> = vec![0u8; 2048];
        let palette_table: Vec<u8> = vec![0u8; 32];
        let oam_data: Vec<u8> = vec![0u8; 256];
        assert(vram@ =~= Seq::new(2048, |i: int| 0u8));
        assert(palette_table@ =~= Seq::new(32, |i: int| 0u8));
        assert(oam_data@ =~= Seq::new(256, |i: int| 0u8));
        PPU {
            palette_table,
            vram,
            chr_rom,
            oam_addr: 0,
            oam_data,
            mirroring,
            buffer: 0,
            nmi_interrupt: None,
            ctrl: Control::new(),
            mask: Mask::new(),
            status: Status::new(),
            scroll: Scroll::new(),
            address: Address { value: (0, 0), pointer: false },
            scanline: 0,
            cycles: 0,
        }
    }

    fn mirror_vram_addr(&self, addr: u16) -> (r: usize)
        requires
            0x2000 <= addr < 0x3f00,
        ensures
            r == vram_index(self.mirroring, addr as int),
            r < 2048,
    {
        let i: u16 = if addr >= 0x3000 {
            addr - 0x3000
        } else {
            addr - 0x2000
        };
        let table = i / 0x400;
        let r: u16 = match self.mirroring {
            Mirroring::Horizontal => if table == 0 {
                i
            } else if table == 3 {
                i - 0x800
            } else {
                i - 0x400
            },
            _ => i % 0x800,
        };
        r as usize
    }

    fn read_data(&mut self) -> (r: u8)
        requires
            ppu_wf(old(self)@),
        ensures
            r == read_value(old(self)@, 0x2007),
            final(self)@ == after_read(old(self)@, 0x2007),
            ppu_wf(final(self)@),
    {
        let a = self.address.get();
        let step = self.ctrl.vram_addr_increment();
        self.address.increment(step);
        if a < 0x2000 {
            let result = self.buffer;
            self.buffer = if (a as usize) < self.chr_rom.len() {
                self.chr_rom[a as usize]
            } else {
                0
            };
            result
        } else if a < 0x3f00 {
            let result = self.buffer;
            let i = self.mirror_vram_addr(a);
            self.buffer = self.vram[i];
            result
        } else {
            self.palette_table[((a - 0x3f00) % 32) as usize]
        }
    }

    /// Reads port `reg`. Reading the status port clears the vblank flag and both write toggles.
    pub fn read_register(&mut self, reg: u16) -> (r: Result<u8, PpuError>)
        requires
            ppu_wf(old(self)@),
        ensures
            ppu_wf(final(self)@),
            r == match read_error(reg) {
                Some(e) => Err(e),
                None => Ok(read_value(old(self)@, reg)),
            },
            read_error(reg) is None ==> final(self)@ == after_read(old(self)@, reg),
            read_error(reg) is Some ==> final(self)@ == old(self)@,
    {
        if reg == 0x2002 {
            let data = self.status.snapshot();
            self.status.reset_vblank_status();
            self.address.reset_latch();
            self.scroll.reset_latch();
            Ok(data)
        } else if reg == 0x2004 {
            Ok(self.oam_data[self.oam_addr as usize])
        } else if reg == 0x2007 {
            Ok(self.read_data())
        } else if reg == 0x2000 || reg == 0x2001 || reg == 0x2003 || reg == 0x2005 || reg
            == 0x2006 || reg == 0x4014 {
            Err(PpuError::WriteOnlyRegister(reg))
        } else {
            Err(PpuError::UnsupportedRegister(reg))
        }
    }

    fn write_data(&mut self, data: u8) -> (r: Result<(), PpuError>)
        requires
            ppu_wf(old(self)@),
        ensures
            ppu_wf(final(self)@),
            r == match write_error(old(self)@, 0x2007) {
                Some(e) => Err(e),
                None => Ok(()),
            },
            r is Ok ==> final(self)@ == after_write(old(self)@, 0x2007, data),
            r is Err ==> final(self)@ == old(self)@,
    {
        let a = self.address.get();
        if a < 0x2000 {
            return Err(PpuError::ChrRomWrite(a));
        }
        let step = self.ctrl.vram_addr_increment();
        self.address.increment(step);
        if a < 0x3f00 {
            let i = self.mirror_vram_addr(a);
            self.vram.set(i, data);
        } else {
            self.palette_table.set(((a - 0x3f00) % 32) as usize, data);
        }
        Ok(())
    }

    /// Writes `data` to port `reg`.
    pub fn write_register(&mut self, reg: u16, data: u8) -> (r: Result<(), PpuError>)
        requires
            ppu_wf(old(self)@),
        ensures
            ppu_wf(final(self)@),
            r == match write_error(old(self)@, reg) {
                Some(e) => Err(e),
                None => Ok(()),
            },
            r is Ok ==> final(self)@ == after_write(old(self)@, reg, data),
            r is Err ==> final(self)@ == old(self)@,
    {
        if reg == 0x2000 {
            let before_nmi_status = self.ctrl.generate_vblank_nmi();
            self.ctrl.update(data);
            if !before_nmi_status && self.ctrl.generate_vblank_nmi() && self.status.is_in_vblank() {
                self.nmi_interrupt = Some(InterruptType::NMI);
            }
            Ok(())
        } else if reg == 0x2001 {
            self.mask.update(data);
            Ok(())
        } else if reg == 0x2002 {
            Err(PpuError::ReadOnlyRegister(reg))
        } else if reg == 0x2003 {
            self.oam_addr = data;
            Ok(())
        } else if reg == 0x2004 {
            self.oam_data.set(self.oam_addr as usize, data);
            self.oam_addr = self.oam_addr.wrapping_add(1);
            Ok(())
        } else if reg == 0x2005 {
            self.scroll.write(data);
            Ok(())
        } else if reg == 0x2006 {
            self.address.update(data);
            Ok(())
        } else if reg == 0x2007 {
            self.write_data(data)
        } else {
            Err(PpuError::UnsupportedRegister(reg))
        }
    }

    /// Advances the scan position by `cycles` of the unit's own cycles; returns whether a
    /// frame was completed.
    pub fn tick(&mut self, cycles: u8) -> (r: bool)
        requires
            ppu_wf(old(self)@),
        ensures
            ppu_wf(final(self)@),
            (final(self)@, r) == after_tick(old(self)@, cycles),
    {
        self.cycles = self.cycles + cycles as u16;
        if self.cycles >= CYCLES_PER_LINE {
            self.cycles = self.cycles - CYCLES_PER_LINE;
            self.scanline = self.scanline + 1;
            if self.scanline == VBLANK_LINE {
                self.status.set_vblank_status(true);
                if self.ctrl.generate_vblank_nmi() {
                    self.nmi_interrupt = Some(InterruptType::NMI);
                }
            }
            if self.scanline >= LINES_PER_FRAME {
                self.scanline = 0;
                self.status.reset_vblank_status();
                return true;
            }
        }
        false
    }

    /// The pending interrupt, if any, which is thereby acknowledged.
    pub fn take_nmi(&mut self) -> (r: Option<InterruptType>)
        requires
            ppu_wf(old(self)@),
        ensures
            ppu_wf(final(self)@),
            r == old(self)@.nmi,
            final(self)@ == (PpuView { nmi: None, ..old(self)@ }),
    {
        let r = self.nmi_interrupt;
        self.nmi_interrupt = None;
        r
    }

    /// Whether an interrupt is pending.
    pub fn nmi_pending(&self) -> (r: bool)
        ensures
            r == self@.nmi is Some,
    {
        self.nmi_interrupt.is_some()
    }

    /// Whether the status port has its vblank flag set.
    pub fn is_in_vblank(&self) -> (r: bool)
        ensures
            r == has_flag(self@.status, VBLANK_STARTED),
    {
        self.status.is_in_vblank()
    }
}

} // verus!
