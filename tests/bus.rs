use nes::bus::{BusError, MemoryBus};
use nes::cpu::interrupt::InterruptType;
use nes::ppu::PpuError;
use nes::rom::{Mirroring, Rom};

fn empty_bus() -> MemoryBus {
    MemoryBus::new(Rom {
        prg_rom: vec![],
        chr_rom: vec![],
        mapper: 0,
        screen_mirroring: Mirroring::Horizontal,
    })
}

#[test]
fn test_write_read_word() {
    let mut memory_bus = empty_bus();
    memory_bus.write_word(0x800, 0xFF).unwrap();
    let word = memory_bus.read_word(0x800).unwrap();
    assert_eq!(word, 0xFF)
}

#[test]
fn test_write_read_byte() {
    let mut memory_bus = empty_bus();
    memory_bus.write_byte(0x800, 0x01).unwrap();
    let word = memory_bus.read_byte(0x800).unwrap();
    assert_eq!(word, 0x01)
}

#[test]
fn ram_mirrors_every_0x800_bytes() {
    let mut bus = empty_bus();
    bus.write_byte(0x0801, 0x5a).unwrap();
    for addr in [0x0001u16, 0x0801, 0x1001, 0x1801] {
        assert_eq!(bus.read_byte(addr).unwrap(), 0x5a);
    }
    bus.write_byte(0x1fff, 0x11).unwrap();
    assert_eq!(bus.read_byte(0x07ff).unwrap(), 0x11);
}

#[test]
fn word_round_trip_is_little_endian() {
    let mut bus = empty_bus();
    bus.write_word(0x07ff, 0xbeef).unwrap();
    assert_eq!(bus.read_byte(0x07ff).unwrap(), 0xef);
    assert_eq!(bus.read_byte(0x0000).unwrap(), 0xbe);
    assert_eq!(bus.read_word(0x07ff).unwrap(), 0xbeef);
    bus.write_word(0x0010, 0xffff).unwrap();
    assert_eq!(bus.read_word(0x0010).unwrap(), 0xffff);
}

#[test]
fn rom_writes_are_rejected() {
    let mut bus = empty_bus();
    assert_eq!(bus.write_byte(0x8000, 1), Err(BusError::RomWrite(0x8000)));
    assert_eq!(bus.write_byte(0xffff, 1), Err(BusError::RomWrite(0xffff)));
    assert_eq!(bus.write_byte(0xc123, 1), Err(BusError::RomWrite(0xc123)));
}

#[test]
fn small_prg_is_mirrored_across_rom_window() {
    let mut prg = vec![0u8; 0x4000];
    prg[0x0010] = 0x42;
    prg[0x3ffc] = 0x34;
    let mut bus = MemoryBus::new(Rom {
        prg_rom: prg,
        chr_rom: vec![],
        mapper: 0,
        screen_mirroring: Mirroring::Vertical,
    });
    assert_eq!(bus.read_byte(0x8010).unwrap(), 0x42);
    assert_eq!(bus.read_byte(0xc010).unwrap(), 0x42);
    assert_eq!(bus.read_from_rom(0xfffc), 0x34);
}

#[test]
fn unmapped_accesses_are_quiet() {
    let mut bus = empty_bus();
    assert_eq!(bus.read_byte(0x5000).unwrap(), 0);
    assert_eq!(bus.write_byte(0x6000, 7), Ok(()));
    assert_eq!(bus.read_byte(0x6000).unwrap(), 0);
}

#[test]
fn ppu_register_window_errors() {
    let mut bus = empty_bus();
    assert_eq!(
        bus.read_byte(0x2000),
        Err(BusError::Ppu(PpuError::WriteOnlyRegister(0x2000)))
    );
    assert_eq!(
        bus.read_byte(0x3ff8),
        Err(BusError::Ppu(PpuError::WriteOnlyRegister(0x2000)))
    );
    assert_eq!(
        bus.write_byte(0x200a, 0),
        Err(BusError::Ppu(PpuError::ReadOnlyRegister(0x2002)))
    );
    assert_eq!(
        bus.write_byte(0x4014, 2),
        Err(BusError::Ppu(PpuError::UnsupportedRegister(0x4014)))
    );
    assert_eq!(
        bus.write_byte(0x2007, 2),
        Err(BusError::Ppu(PpuError::ChrRomWrite(0)))
    );
}

#[test]
fn enabling_nmi_inside_vblank_raises_it_at_once() {
    let mut bus = empty_bus();
    let mut ticks = 0;
    while !bus.ppu.is_in_vblank() {
        bus.tick(85);
        ticks += 1;
        assert!(ticks < 1000);
    }
    assert_eq!(bus.poll_nmi_status(), None);
    bus.write_byte(0x2000, 0x80).unwrap();
    assert_eq!(bus.poll_nmi_status(), Some(InterruptType::NMI));
    assert_eq!(bus.poll_nmi_status(), None);
}

#[test]
fn tick_counts_cpu_cycles() {
    let mut bus = empty_bus();
    bus.tick(7);
    bus.tick(2);
    assert_eq!(bus.cycles(), 9);
}
