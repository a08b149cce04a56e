use vstd::prelude::*;

verus! {

/// How the graphics unit's name tables are mirrored.
#[derive(Clone, Copy, Debug, PartialEq, Eq, Structural)]
pub enum Mirroring {
    Vertical,
    Horizontal,
    FourScreen,
}

/// Why a cartridge image was rejected.
#[derive(Clone, Copy, Debug, PartialEq, Eq, Structural)]
pub enum RomError {
    /// The image does not start with the iNES magic bytes.
    NotINes,
    /// The header announces the NES 2.0 extension of the format.
    Nes2Unsupported,
    /// The image is shorter than its header says.
    Truncated,
}

/// A parsed cartridge image.
#[derive(Clone, Debug)]
pub struct Rom {
    pub prg_rom: Vec<u8>,
    pub chr_rom: Vec<u8>,
    pub mapper: u8,
    pub screen_mirroring: Mirroring,
}

/// Whether `raw` starts with the bytes "NES" and 0x1a.
pub open spec fn has_magic(raw: Seq<u8>) -> bool {
    raw.len() >= 4 && raw[0] == 0x4e && raw[1] == 0x45 && raw[2] == 0x53 && raw[3] == 0x1a
}

/// Where program data starts: after the 16-byte header and, if flag 6 bit 2 says so, a
/// 512-byte trainer.
pub open spec fn prg_start(raw: Seq<u8>) -> int {
    16 + if raw[6] & 0b100 != 0 {
        512int
    } else {
        0int
    }
}

/// Program data size: header byte 4 in 16 KiB units.
pub open spec fn prg_size(raw: Seq<u8>) -> int {
    raw[4] * 16384
}

/// Character data size: header byte 5 in 8 KiB units.
pub open spec fn chr_size(raw: Seq<u8>) -> int {
    raw[5] * 8192
}

/// Mirroring from flags 6: bit 3 four-screen, else bit 0 vertical, else horizontal.
pub open spec fn mirroring_of(flags6: u8) -> Mirroring {
    if flags6 & 0b1000 != 0 {
        Mirroring::FourScreen
    } else if flags6 & 0b1 != 0 {
        Mirroring::Vertical
    } else {
        Mirroring::Horizontal
    }
}

/// Why `raw` is rejected, if it is.
pub open spec fn rom_error(raw: Seq<u8>) -> Option<RomError> {
    if !has_magic(raw) {
        Some(RomError::NotINes)
    } else if raw.len() < 16 {
        Some(RomError::Truncated)
    } else if (raw[7] >> 2) & 0b11 != 0 {
        Some(RomError::Nes2Unsupported)
    } else if raw.len() < prg_start(raw) + prg_size(raw) + chr_size(raw) {
        Some(RomError::Truncated)
    } else {
        None
    }
}

fn copy_range(raw: &Vec<u8>, start: usize, end: usize) -> (r: Vec<u8>)
    requires
        start <= end <= raw.len(),
    ensures
        r@ == raw@.subrange(start as int, end as int),
{
    let mut out: Vec<u8> = Vec::new();
    let mut i = start;
    while i < end
        invariant
            start <= i <= end <= raw.len(),
            out@ == raw@.subrange(start as int, i as int),
        decreases end - i,
    {
        out.push(raw[i]);
        i = i + 1;
    }
    out
}

impl Rom {
    /// Parses an iNES image: checks the header, then splits off program and character data.
    pub fn new(raw: &Vec<u8>) -> (r: Result<Rom, RomError>)
        ensures
            match rom_error(raw@) {
                Some(e) => r == Err::<Rom, RomError>(e),
                None => r matches Ok(rom) && rom.prg_rom@ == raw@.subrange(
                    prg_start(raw@),
                    prg_start(raw@) + prg_size(raw@),
                ) && rom.chr_rom@ == raw@.subrange(
                    prg_start(raw@) + prg_size(raw@),
                    prg_start(raw@) + prg_size(raw@) + chr_size(raw@),
                ) && rom.mapper == (raw@[7] & 0b1111_0000) | (raw@[6] >> 4u8)
                    && rom.screen_mirroring == mirroring_of(raw@[6]),
            },
    {
        if raw.len() < 4 || raw[0] != 0x4e || raw[1] != 0x45 || raw[2] != 0x53 || raw[3] != 0x1a {
            return Err(RomError::NotINes);
        }
        if raw.len() < 16 {
            return Err(RomError::Truncated);
        }
        let mapper = (raw[7] & 0b1111_0000) | (raw[6] >> 4u8);
        let ines_ver = (raw[7] >> 2u8) & 0b11;
        if ines_ver != 0 {
            return Err(RomError::Nes2Unsupported);
        }
        let four_screen = raw[6] & 0b1000 != 0;
        let vertical_mirroring = raw[6] & 0b1 != 0;
        let screen_mirroring = if four_screen {
            Mirroring::FourScreen
        } else if vertical_mirroring {
            Mirroring::Vertical
        } else {
            Mirroring::Horizontal
        };
        let prg_rom_size = raw[4] as usize * 16384;
        let chr_rom_size = raw[5] as usize * 8192;
        let skip_trainer = raw[6] & 0b100 != 0;
        let prg_rom_start: usize = if skip_trainer {
            16 + 512
        } else {
            16
        };
        let chr_rom_start = prg_rom_start + prg_rom_size;
        if raw.len() < chr_rom_start + chr_rom_size {
            return Err(RomError::Truncated);
        }
        Ok(
            Rom {
                prg_rom: copy_range(raw, prg_rom_start, chr_rom_start),
                chr_rom: copy_range(raw, chr_rom_start, chr_rom_start + chr_rom_size),
                mapper,
                screen_mirroring,
            },
        )
    }
}

} // verus!
