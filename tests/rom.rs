use nes::rom::{Mirroring, Rom, RomError};

fn header(prg_banks: u8, chr_banks: u8, flags6: u8, flags7: u8) -> Vec<u8> {
    let mut raw = vec![0x4e, 0x45, 0x53, 0x1a, prg_banks, chr_banks, flags6, flags7];
    raw.resize(16, 0);
    raw
}

#[test]
fn parses_program_and_character_data() {
    let mut raw = header(1, 1, 0b0001_0001, 0b0010_0000);
    raw.extend((0..16384).map(|i| (i % 251) as u8));
    raw.extend(vec![7u8; 8192]);
    let rom = Rom::new(&raw).unwrap();
    assert_eq!(rom.prg_rom.len(), 16384);
    assert_eq!(rom.prg_rom[250], 250);
    assert_eq!(rom.prg_rom[251], 0);
    assert_eq!(rom.chr_rom, vec![7u8; 8192]);
    assert_eq!(rom.mapper, 0x21);
    assert_eq!(rom.screen_mirroring, Mirroring::Vertical);
}

#[test]
fn skips_trainer_and_reads_four_screen() {
    let mut raw = header(1, 0, 0b0000_1100, 0);
    raw.extend(vec![9u8; 512]);
    raw.extend(vec![3u8; 16384]);
    let rom = Rom::new(&raw).unwrap();
    assert_eq!(rom.prg_rom, vec![3u8; 16384]);
    assert!(rom.chr_rom.is_empty());
    assert_eq!(rom.screen_mirroring, Mirroring::FourScreen);
}

#[test]
fn rejects_bad_images() {
    assert_eq!(Rom::new(&vec![1, 2, 3]).err(), Some(RomError::NotINes));
    assert_eq!(Rom::new(&vec![0x4e, 0x45, 0x53, 0x00]).err(), Some(RomError::NotINes));
    assert_eq!(Rom::new(&vec![0x4e, 0x45, 0x53, 0x1a, 1]).err(), Some(RomError::Truncated));
    assert_eq!(Rom::new(&header(0, 0, 0, 0b0000_1000)).err(), Some(RomError::Nes2Unsupported));
    assert_eq!(Rom::new(&header(1, 0, 0, 0)).err(), Some(RomError::Truncated));
    let empty = Rom::new(&header(0, 0, 0, 0)).unwrap();
    assert!(empty.prg_rom.is_empty());
    assert_eq!(empty.screen_mirroring, Mirroring::Horizontal);
}
