use nes::ppu::address::Address;
use nes::ppu::address_register::AddrRegister;
use nes::ppu::registers::{Color, Control, Mask, Status};
use nes::ppu::scroll::Scroll;
use nes::ppu::{PpuError, PPU};
use nes::cpu::interrupt::InterruptType;
use nes::rom::Mirroring;

#[test]
fn test_set() {
    let address = Address::from(0b0011_0000_0001_0110);
    assert_eq!(address.value.0, 0b0011_0000);
    assert_eq!(address.value.1, 0b0001_0110);
}

#[test]
fn test_get() {
    let address = Address::from(0b0011_0000_0001_0110);
    assert_eq!(address.get(), 0b0011_0000_0001_0110);
}

#[test]
fn test_increment() {
    let mut address = Address::from(0x3016);
    address.increment(1);

    assert_eq!(address.get(), 0x3017);

    address.increment(3);
    assert_eq!(address.get(), 0x301A);
}

#[test]
fn test_update() {
    let mut address = Address::from(0x3016);
    address.update(0x20);
    address.update(0x06);

    assert_eq!(address.get(), 0x2006);
}

#[test]
fn address_increment_carries_and_folds() {
    let mut address = Address::from(0x20ff);
    address.increment(1);
    assert_eq!(address.get(), 0x2100);
    let mut high = Address::from(0x3fff);
    high.increment(1);
    assert_eq!(high.get(), 0x0000);
    let mut folded = Address::default();
    folded.update(0x7f);
    folded.update(0x01);
    assert_eq!(folded.get(), 0x3f01);
}

#[test]
fn test_addr_register_set() {
    let mut addr_register = AddrRegister::default();
    addr_register.set(12);

    assert_eq!(addr_register.get(), 12);
}

#[test]
fn test_addr_register_incr() {
    let mut addr_register = AddrRegister::default();
    addr_register.set(12);
    addr_register.increment(12);

    assert_eq!(addr_register.get(), 24);
}

#[test]
fn test_addr_register_update() {
    let mut addr_register = AddrRegister::default();
    addr_register.set(12);
    addr_register.update(0b0001_1000); // Set Low Byte 24
    assert_eq!(addr_register.get(), 24);

    addr_register.update(24); // Set High Byte 0b0001_1000_0001_1000
    assert_eq!(addr_register.get(), 6168);
}

#[test]
fn registers_decode_their_bits() {
    let mut ctrl = Control::new();
    assert_eq!(ctrl.vram_addr_increment(), 1);
    ctrl.update(0b1000_0100);
    assert_eq!(ctrl.vram_addr_increment(), 32);
    assert!(ctrl.generate_vblank_nmi());

    let mut status = Status::new();
    status.set_vblank_status(true);
    status.set_sprite_zero_hit(true);
    assert_eq!(status.snapshot(), 0b1100_0000);
    assert!(status.is_in_vblank());
    status.reset_vblank_status();
    status.set_sprite_overflow(true);
    assert_eq!(status.snapshot(), 0b0110_0000);

    let mut mask = Mask::new();
    mask.update(0b1110_0011);
    assert!(mask.is_grayscale());
    assert!(mask.leftmost_8pxl_background());
    assert!(!mask.leftmost_8pxl_sprite());
    assert!(!mask.show_background());
    assert!(!mask.show_sprites());
    assert_eq!(mask.emphasise(), vec![Color::Red, Color::Blue, Color::Green]);

    let mut scroll = Scroll::new();
    scroll.write(5);
    scroll.write(9);
    assert_eq!((scroll.scroll_x, scroll.scroll_y, scroll.latch), (5, 9, false));
    scroll.write(1);
    scroll.reset_latch();
    assert!(!scroll.latch);
}

#[test]
fn status_read_clears_vblank_and_latches() {
    let mut ppu = PPU::new(vec![], Mirroring::Horizontal);
    let mut frames = 0;
    let mut ticks = 0;
    while !ppu.is_in_vblank() {
        if ppu.tick(255) {
            frames += 1;
        }
        ticks += 1;
    }
    assert_eq!(frames, 0);
    assert!(ticks > 300);
    assert_eq!(ppu.take_nmi(), None);
    ppu.write_register(0x2006, 0x21).unwrap();
    assert_eq!(ppu.read_register(0x2002), Ok(0x80));
    assert!(!ppu.is_in_vblank());
    assert_eq!(ppu.read_register(0x2002), Ok(0x00));
    ppu.write_register(0x2006, 0x23).unwrap();
    ppu.write_register(0x2006, 0x05).unwrap();
    ppu.write_register(0x2007, 0x66).unwrap();
    ppu.write_register(0x2006, 0x23).unwrap();
    ppu.write_register(0x2006, 0x05).unwrap();
    assert_eq!(ppu.read_register(0x2007), Ok(0));
    assert_eq!(ppu.read_register(0x2007), Ok(0x66));
}

#[test]
fn vblank_raises_nmi_when_enabled_and_frame_completes() {
    let mut ppu = PPU::new(vec![1, 2, 3], Mirroring::Vertical);
    ppu.write_register(0x2000, 0x80).unwrap();
    assert!(!ppu.nmi_pending());
    let mut frame_done = false;
    let mut ticks = 0;
    while !frame_done {
        frame_done = ppu.tick(255);
        if ppu.is_in_vblank() {
            assert!(ppu.nmi_pending());
        }
        ticks += 1;
    }
    assert_eq!(ticks, 262 * 341 / 255 + 1);
    assert_eq!(ppu.take_nmi(), Some(InterruptType::NMI));
    assert!(!ppu.is_in_vblank());
}

#[test]
fn port_misuse_is_reported() {
    let mut ppu = PPU::new(vec![], Mirroring::Horizontal);
    assert_eq!(ppu.read_register(0x2005), Err(PpuError::WriteOnlyRegister(0x2005)));
    assert_eq!(ppu.read_register(0x2008), Err(PpuError::UnsupportedRegister(0x2008)));
    assert_eq!(ppu.write_register(0x2002, 0), Err(PpuError::ReadOnlyRegister(0x2002)));
    ppu.write_register(0x2006, 0x01).unwrap();
    ppu.write_register(0x2006, 0x02).unwrap();
    assert_eq!(ppu.write_register(0x2007, 0), Err(PpuError::ChrRomWrite(0x0102)));
}

#[test]
fn oam_data_port_advances_its_address() {
    let mut ppu = PPU::new(vec![], Mirroring::Horizontal);
    ppu.write_register(0x2003, 0xff).unwrap();
    ppu.write_register(0x2004, 0x12).unwrap();
    ppu.write_register(0x2004, 0x34).unwrap();
    ppu.write_register(0x2003, 0x00).unwrap();
    assert_eq!(ppu.read_register(0x2004), Ok(0x34));
    ppu.write_register(0x2003, 0xff).unwrap();
    assert_eq!(ppu.read_register(0x2004), Ok(0x12));
}

#[test]
fn show_tile_decodes_both_bit_planes() {
    let mut chr = vec![0u8; 0x2000];
    chr[16] = 0b1000_0001;
    chr[24] = 0b1000_0000;
    chr[0x1000 + 16 + 7] = 0b0100_0000;
    chr[0x1000 + 16 + 15] = 0b0100_0000;
    let ppu = PPU::new(chr, Mirroring::Horizontal);
    let tile = ppu.show_tile(0, 1);
    assert_eq!(tile.len(), 64);
    assert_eq!(&tile[0..8], &[3, 0, 0, 0, 0, 0, 0, 2]);
    assert!(tile[8..].iter().all(|&p| p == 0));
    let other = ppu.show_tile(1, 1);
    assert_eq!(other[7 * 8 + 1], 3);
    assert_eq!(other.iter().filter(|&&p| p != 0).count(), 1);
}
