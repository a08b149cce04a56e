use nes::bus::MemoryBus;
use nes::cpu::instructions::{get_instruction_from_opcode, InstructionType, MemoryAdressingMode};
use nes::cpu::processor_status::{ProcessorStatus, CARRY, NEGATIVE, OVERFLOW, ZERO};
use nes::cpu::CPU;
use nes::rom::{Mirroring, Rom};

const OPCODE_EXIT: u8 = 0xf4;

/// A 32 KiB cartridge holding `game_code` at 0x8000 and a break handler that halts.
fn fake_rom(game_code: Vec<u8>) -> MemoryBus {
    let mut prg_rom = vec![0; 0x8000];
    let game_code_len = game_code.len();
    prg_rom[0x00..game_code_len].copy_from_slice(&game_code);
    let handler_addr = 0x8000 - 0x10;
    for i in 0..4 {
        prg_rom[handler_addr + i] = OPCODE_EXIT;
    }
    let handler = (handler_addr + 0x8000) as u16;
    prg_rom[0x7ffe] = (handler & 0xff) as u8;
    prg_rom[0x7fff] = (handler >> 8) as u8;
    let rom = Rom {
        prg_rom,
        chr_rom: vec![],
        mapper: 0,
        screen_mirroring: Mirroring::Horizontal,
    };
    MemoryBus::new(rom)
}

fn start(cpu: &mut CPU) {
    assert_eq!(cpu.run(100_000), Ok(true));
}

#[test]
fn test_end_to_end() {
    let game_code = vec![
        0x20, 0x06, 0x06, 0x20, 0x38, 0x06, 0x20, 0x0d, 0x06, 0x20, 0x2a, 0x06, 0x60, 0xa9,
        0x02, 0x85, 0x02, 0xa9, 0x04, 0x85, 0x03, 0xa9, 0x11, 0x85, 0x10, 0xa9, 0x10, 0x85,
        0x12, 0xa9, 0x0f, 0x85, 0x14, 0xa9, 0x04, 0x85, 0x11, 0x85, 0x13, 0x85, 0x15, 0x60,
        0xa5, 0xfe, 0x85, 0x00, 0xa5, 0xfe, 0x29, 0x03, 0x18, 0x69, 0x02, 0x85, 0x01, 0x60,
        0x20, 0x4d, 0x06, 0x20, 0x8d, 0x06, 0x20, 0xc3, 0x06, 0x20, 0x19, 0x07, 0x20, 0x20,
        0x07, 0x20, 0x2d, 0x07, 0x4c, 0x38, 0x06, 0xa5, 0xff, 0xc9, 0x77, 0xf0, 0x0d, 0xc9,
        0x64, 0xf0, 0x14, 0xc9, 0x73, 0xf0, 0x1b, 0xc9, 0x61, 0xf0, 0x22, 0x60, 0xa9, 0x04,
        0x24, 0x02, 0xd0, 0x26, 0xa9, 0x01, 0x85, 0x02, 0x60, 0xa9, 0x08, 0x24, 0x02, 0xd0,
        0x1b, 0xa9, 0x02, 0x85, 0x02, 0x60, 0xa9, 0x01, 0x24, 0x02, 0xd0, 0x10, 0xa9, 0x04,
        0x85, 0x02, 0x60, 0xa9, 0x02, 0x24, 0x02, 0xd0, 0x05, 0xa9, 0x08, 0x85, 0x02, 0x60,
        0x60, 0x20, 0x94, 0x06, 0x20, 0xa8, 0x06, 0x60, 0xa5, 0x00, 0xc5, 0x10, 0xd0, 0x0d,
        0xa5, 0x01, 0xc5, 0x11, 0xd0, 0x07, 0xe6, 0x03, 0xe6, 0x03, 0x20, 0x2a, 0x06, 0x60,
        0xa2, 0x02, 0xb5, 0x10, 0xc5, 0x10, 0xd0, 0x06, 0xb5, 0x11, 0xc5, 0x11, 0xf0, 0x09,
        0xe8, 0xe8, 0xe4, 0x03, 0xf0, 0x06, 0x4c, 0xaa, 0x06, 0x4c, 0x35, 0x07, 0x60, 0xa6,
        0x03, 0xca, 0x8a, 0xb5, 0x10, 0x95, 0x12, 0xca, 0x10, 0xf9, 0xa5, 0x02, 0x4a, 0xb0,
        0x09, 0x4a, 0xb0, 0x19, 0x4a, 0xb0, 0x1f, 0x4a, 0xb0, 0x2f, 0xa5, 0x10, 0x38, 0xe9,
        0x20, 0x85, 0x10, 0x90, 0x01, 0x60, 0xc6, 0x11, 0xa9, 0x01, 0xc5, 0x11, 0xf0, 0x28,
        0x60, 0xe6, 0x10, 0xa9, 0x1f, 0x24, 0x10, 0xf0, 0x1f, 0x60, 0xa5, 0x10, 0x18, 0x69,
        0x20, 0x85, 0x10, 0xb0, 0x01, 0x60, 0xe6, 0x11, 0xa9, 0x06, 0xc5, 0x11, 0xf0, 0x0c,
        0x60, 0xc6, 0x10, 0xa5, 0x10, 0x29, 0x1f, 0xc9, 0x1f, 0xf0, 0x01, 0x60, 0x4c, 0x35,
        0x07, 0xa0, 0x00, 0xa5, 0xfe, 0x91, 0x00, 0x60, 0xa6, 0x03, 0xa9, 0x00, 0x81, 0x10,
        0xa2, 0x00, 0xa9, 0x01, 0x81, 0x10, 0x60, 0xa2, 0x00, 0xea, 0xea, 0xca, 0xd0, 0xfb,
        0x60,
    ];
    let mut cpu = CPU::new(fake_rom(game_code));
    start(&mut cpu);
}

#[test]
fn test_adc() {
    let mut cpu = CPU::new(fake_rom(vec![0x69, 0x10, 0x00]));
    // Set the ROM start to default
    cpu.program_counter = 0x8000;
    cpu.a = 0x00;
    start(&mut cpu);

    assert_eq!(cpu.a, 0x10);
    assert!(!cpu.processor_status.contains(CARRY));
    assert!(!cpu.processor_status.contains(OVERFLOW));
}

#[test]
fn test_adc_carry() {
    let mut cpu = CPU::new(fake_rom(vec![0x69, 0x10, 0x00]));
    // Set the ROM start to default
    cpu.program_counter = 0x8000;
    cpu.a = 0xff;
    start(&mut cpu);

    assert_eq!(cpu.a, 15);
    assert!(cpu.processor_status.contains(CARRY));
    assert!(!cpu.processor_status.contains(OVERFLOW));
}

#[test]
fn adc_signed_overflow() {
    let mut cpu = CPU::new(fake_rom(vec![0x69, 0x50, 0x00]));
    cpu.program_counter = 0x8000;
    cpu.a = 0x50;
    start(&mut cpu);
    assert_eq!(cpu.a, 0xa0);
    assert!(cpu.processor_status.contains(OVERFLOW));
    assert!(cpu.processor_status.contains(NEGATIVE));
    assert!(!cpu.processor_status.contains(CARRY));
}

#[test]
fn sbc_borrows_through_carry() {
    // SEC; SBC #$01 ; SBC #$01 (carry now set, no borrow)
    let mut cpu = CPU::new(fake_rom(vec![0x38, 0xe9, 0x01, 0xe9, 0x01, 0x00]));
    cpu.program_counter = 0x8000;
    cpu.a = 0x00;
    start(&mut cpu);
    assert_eq!(cpu.a, 0xfd);
    assert!(cpu.processor_status.contains(CARRY));
    assert!(cpu.processor_status.contains(NEGATIVE));
}

#[test]
fn test_asl() {
    let mut cpu = CPU::new(fake_rom(vec![0x0a, 0x00]));

    cpu.program_counter = 0x8000;
    cpu.a = 0b1111_1111;
    start(&mut cpu);

    assert_eq!(cpu.a, 0b1111_1110);
    assert!(cpu.processor_status.contains(CARRY));
}

#[test]
fn test_asl_no_carry() {
    let mut cpu = CPU::new(fake_rom(vec![0x0a, 0x00]));

    cpu.program_counter = 0x8000;
    cpu.a = 0b0111_1111;
    start(&mut cpu);

    assert_eq!(cpu.a, 0b1111_1110);
    assert!(!cpu.processor_status.contains(CARRY));
}

#[test]
fn rotates_feed_carry_through() {
    // SEC; ROL A; ROR A; ROR A
    let mut cpu = CPU::new(fake_rom(vec![0x38, 0x2a, 0x6a, 0x6a, 0x00]));
    cpu.program_counter = 0x8000;
    cpu.a = 0b1000_0000;
    start(&mut cpu);
    // ROL: 0000_0001, carry 1; ROR: 1000_0000, carry 1; ROR: 1100_0000, carry 0
    assert_eq!(cpu.a, 0b1100_0000);
    assert!(!cpu.processor_status.contains(CARRY));
}

#[test]
fn test_bcc_carry() {
    let mut cpu = CPU::new(fake_rom(vec![0x90, 0x02, 0x69, 0x01, 0x69, 0x01, 0x00]));

    cpu.program_counter = 0x8000;
    cpu.processor_status.set_carry(true);
    start(&mut cpu);
    assert_eq!(cpu.a, 0x03) // Carry is set so...it adds with a carry
}

#[test]
fn test_bcc_no_carry() {
    let mut cpu = CPU::new(fake_rom(vec![0x90, 0x02, 0x69, 0x01, 0x69, 0x01, 0x00]));

    cpu.program_counter = 0x8000;
    cpu.processor_status.set_carry(false);
    start(&mut cpu);
    assert_eq!(cpu.a, 0x01)
}

#[test]
fn test_bcs_carry() {
    let mut cpu = CPU::new(fake_rom(vec![0xb0, 0x02, 0x69, 0x01, 0x69, 0x01, 0x00]));

    cpu.program_counter = 0x8000;
    cpu.processor_status.set_carry(true);
    start(&mut cpu);
    assert_eq!(cpu.a, 0x02) // Carry is set so...it adds with a carry
}

#[test]
fn test_bcs_no_carry() {
    let mut cpu = CPU::new(fake_rom(vec![0xb0, 0x02, 0x69, 0x01, 0x69, 0x01, 0x00]));

    cpu.program_counter = 0x8000;
    cpu.processor_status.set_carry(false);
    start(&mut cpu);
    assert_eq!(cpu.a, 0x02)
}

#[test]
fn branch_backwards() {
    // LDX #$03; DEX; BNE -3; BRK
    let mut cpu = CPU::new(fake_rom(vec![0xa2, 0x03, 0xca, 0xd0, 0xfd, 0x00]));
    cpu.program_counter = 0x8000;
    start(&mut cpu);
    assert_eq!(cpu.x, 0);
    assert!(cpu.processor_status.contains(ZERO));
}

#[test]
fn test_bit_zero() {
    let mut cpu = CPU::new(fake_rom(vec![0x2c, 0xaa, 0x00]));
    cpu.program_counter = 0x8000;
    cpu.a = 0b0111_1111;
    cpu.bus.write_byte(0xaa, 0b0000_0000).unwrap();
    start(&mut cpu);

    assert!(cpu.processor_status.contains(ZERO));
    assert!(!cpu.processor_status.contains(OVERFLOW));
    assert!(!cpu.processor_status.contains(NEGATIVE));
}

#[test]
fn test_bit_not_zero_overflow_carry() {
    let mut cpu = CPU::new(fake_rom(vec![0x2c, 0xaa, 0x00]));
    cpu.program_counter = 0x8000;
    cpu.a = 0b0111_1111;
    cpu.bus.write_byte(0xaa, 0b1100_0001).unwrap();
    start(&mut cpu);

    assert!(!cpu.processor_status.contains(ZERO));
    assert!(cpu.processor_status.contains(OVERFLOW));
    assert!(cpu.processor_status.contains(NEGATIVE));
}

#[test]
fn test_inx_overflow() {
    let mut cpu = CPU::new(fake_rom(vec![0xe8, 0xe8, 0x00]));
    // Set the ROM start to default
    cpu.program_counter = 0x8000;
    cpu.x = 0xff;
    start(&mut cpu);

    assert_eq!(cpu.x, 1);
}

#[test]
fn test_read_next_byte() {
    let mut cpu = CPU::new(fake_rom(vec![0x06, 0x12]));
    // Set the ROM start to default
    cpu.program_counter = 0x8000;

    let byte = cpu.read_next_byte().unwrap();
    assert_eq!(byte, 0x06);
    assert_eq!(cpu.program_counter, 0x8001);

    let byte = cpu.read_next_byte().unwrap();
    assert_eq!(byte, 0x12);
    assert_eq!(cpu.program_counter, 0x8002);
}

#[test]
fn test_ld() {
    let mut cpu = CPU::new(fake_rom(vec![0xa9, 0xc5, 0x00]));
    // Set the ROM start to default
    cpu.program_counter = 0x8000;

    start(&mut cpu);

    assert_eq!(cpu.a, 0xc5);
    assert_eq!(cpu.processor_status.contains(ZERO), false);
    assert_eq!(cpu.processor_status.contains(NEGATIVE), true);
}

#[test]
fn test_ld_from_memory() {
    let mut cpu = CPU::new(fake_rom(vec![0xa5, 0x10, 0x00]));
    cpu.bus.write_byte(0x10, 0x55).unwrap();
    cpu.program_counter = 0x8000;

    start(&mut cpu);

    assert_eq!(cpu.a, 0x55);
}

#[test]
fn test_ld_zero() {
    let mut cpu = CPU::new(fake_rom(vec![0xa9, 0x00, 0x00]));
    // Set the ROM start to default
    cpu.program_counter = 0x8000;

    start(&mut cpu);
    assert_eq!(cpu.processor_status.contains(ZERO), true)
}

#[test]
fn test_tax_zero() {
    let mut cpu = CPU::new(fake_rom(vec![0xaa, 0x00]));
    // Set the ROM start to default
    cpu.program_counter = 0x8000;

    cpu.a = 0x00;
    start(&mut cpu);
    assert_eq!(cpu.x, cpu.a);
    assert_eq!(cpu.processor_status.contains(ZERO), true)
}

#[test]
fn test_tax() {
    let mut cpu = CPU::new(fake_rom(vec![0xaa, 0x00]));
    // Set the ROM start to default
    cpu.program_counter = 0x8000;

    cpu.a = 0x01;
    start(&mut cpu);
    assert_eq!(cpu.x, cpu.a);
    assert_eq!(cpu.processor_status.contains(ZERO), false)
}

#[test]
fn test_sta() {
    let mut cpu = CPU::new(fake_rom(vec![0x85, 0x04, 0x00]));
    // Set the ROM start to default
    cpu.program_counter = 0x8000;

    cpu.a = 0x10;
    start(&mut cpu);

    assert_eq!(cpu.a, cpu.bus.read_byte(0x04).unwrap());
}

#[test]
fn test_stack() {
    let mut cpu = CPU::new(fake_rom(vec![0x85, 0x04, 0x00]));
    cpu.push(0x10);
    assert_eq!(cpu.pop(), 0x10);

    cpu.push_word(0xfff);
    assert_eq!(cpu.pop_word(), 0xfff);

    cpu.push(0x20);
    cpu.push(0x34);
    cpu.push(0x56);
    cpu.push(0x78);

    for i in vec![0x78, 0x56, 0x34, 0x20] {
        assert_eq!(cpu.pop(), i);
    }
}

#[test]
fn stack_lives_in_page_one() {
    let mut cpu = CPU::new(fake_rom(vec![0x00]));
    assert_eq!(cpu.stack_pointer, 0xfd);
    cpu.push(0xab);
    assert_eq!(cpu.bus.read_byte(0x01fd).unwrap(), 0xab);
    assert_eq!(cpu.stack_pointer, 0xfc);
    cpu.stack_pointer = 0x00;
    cpu.push(0xcd);
    assert_eq!(cpu.stack_pointer, 0xff);
    assert_eq!(cpu.bus.read_byte(0x0100).unwrap(), 0xcd);
    assert_eq!(cpu.pop(), 0xcd);
}

#[test]
fn indirect_jump_wraps_within_page() {
    // JMP ($02FF): low byte at $02FF, high byte taken from $0200, not $0300.
    let mut cpu = CPU::new(fake_rom(vec![0x6c, 0xff, 0x02]));
    cpu.program_counter = 0x8000;
    cpu.bus.write_byte(0x02ff, 0x00).unwrap();
    cpu.bus.write_byte(0x0200, 0x40).unwrap();
    cpu.bus.write_byte(0x0300, 0x12).unwrap();
    let ins = cpu.step().unwrap().unwrap();
    assert_eq!(ins.instruction_type, InstructionType::JMP);
    assert_eq!(cpu.program_counter, 0x4000);
}

#[test]
fn jsr_and_rts_round_trip() {
    // JSR $8005; BRK; BRK; LDA #$07; RTS
    let mut cpu = CPU::new(fake_rom(vec![0x20, 0x05, 0x80, 0x00, 0x00, 0xa9, 0x07, 0x60]));
    cpu.program_counter = 0x8000;
    cpu.step().unwrap();
    assert_eq!(cpu.program_counter, 0x8005);
    assert_eq!(cpu.bus.read_byte(0x01fd).unwrap(), 0x80);
    assert_eq!(cpu.bus.read_byte(0x01fc).unwrap(), 0x02);
    cpu.step().unwrap();
    cpu.step().unwrap();
    assert_eq!(cpu.program_counter, 0x8003);
    assert_eq!(cpu.a, 0x07);
    assert_eq!(cpu.stack_pointer, 0xfd);
}

#[test]
fn brk_pushes_state_and_takes_vector() {
    let mut cpu = CPU::new(fake_rom(vec![0x00]));
    cpu.program_counter = 0x8000;
    cpu.processor_status = ProcessorStatus::from_bits_truncate(0b0000_0001);
    let ins = cpu.step().unwrap().unwrap();
    assert_eq!(ins.instruction_type, InstructionType::BRK);
    assert_eq!(cpu.program_counter, 0xfff0);
    assert_eq!(cpu.bus.read_byte(0x01fd).unwrap(), 0x80);
    assert_eq!(cpu.bus.read_byte(0x01fc).unwrap(), 0x01);
    assert_eq!(cpu.bus.read_byte(0x01fb).unwrap(), 0b0011_0001);
    assert_eq!(cpu.processor_status.bits(), 0b0000_0101);
    // 7 for the instruction, 1 for the break acknowledgment
    assert_eq!(cpu.bus.cycles(), 8);
    assert_eq!(cpu.step(), Ok(None));
}

#[test]
fn plp_forces_break_bits() {
    // LDA #$FF; PHA; PLP
    let mut cpu = CPU::new(fake_rom(vec![0xa9, 0xff, 0x48, 0x28]));
    cpu.program_counter = 0x8000;
    cpu.step().unwrap();
    cpu.step().unwrap();
    cpu.step().unwrap();
    assert_eq!(cpu.processor_status.bits(), 0b1110_1111);
}

#[test]
fn page_cross_costs_one_cycle() {
    // LDA $80FF,X with X=1 crosses into $8100; LDA $8000,X does not.
    let mut cpu = CPU::new(fake_rom(vec![0xbd, 0xff, 0x80, 0xbd, 0x00, 0x80]));
    cpu.program_counter = 0x8000;
    cpu.x = 1;
    cpu.step().unwrap();
    assert_eq!(cpu.bus.cycles(), 5);
    cpu.step().unwrap();
    assert_eq!(cpu.bus.cycles(), 9);
}

#[test]
fn compare_sets_carry_and_zero() {
    // CMP #$10 with A=$10; then CPX #$05 with X=$03
    let mut cpu = CPU::new(fake_rom(vec![0xc9, 0x10, 0xe0, 0x05]));
    cpu.program_counter = 0x8000;
    cpu.a = 0x10;
    cpu.x = 0x03;
    cpu.step().unwrap();
    assert!(cpu.processor_status.contains(CARRY));
    assert!(cpu.processor_status.contains(ZERO));
    cpu.step().unwrap();
    assert!(!cpu.processor_status.contains(CARRY));
    assert!(!cpu.processor_status.contains(ZERO));
    assert!(cpu.processor_status.contains(NEGATIVE));
}

#[test]
fn pending_nmi_is_serviced_before_fetch() {
    let mut prg = vec![0xeau8; 0x8000];
    // NMI vector -> $9000, which holds the halt opcode
    prg[0x7ffa] = 0x00;
    prg[0x7ffb] = 0x90;
    prg[0x1000] = OPCODE_EXIT;
    let bus = MemoryBus::new(Rom {
        prg_rom: prg,
        chr_rom: vec![],
        mapper: 0,
        screen_mirroring: Mirroring::Horizontal,
    });
    let mut cpu = CPU::new(bus);
    cpu.program_counter = 0x8000;
    // NOPs until vblank; enabling generation then raises the interrupt at once.
    while !cpu.bus.ppu.is_in_vblank() {
        cpu.step().unwrap();
    }
    cpu.bus.write_byte(0x2000, 0x80).unwrap();
    assert_eq!(cpu.step(), Ok(None));
    assert!(cpu.processor_status.contains(0b0000_0100));
}

#[test]
fn every_opcode_has_a_consistent_descriptor() {
    for op in 0..256usize {
        let ins = get_instruction_from_opcode(op);
        assert_eq!(ins.op_code as usize, op);
        let operand_bytes = match ins.memory_addressing_mode {
            MemoryAdressingMode::Implied | MemoryAdressingMode::Accumulator => 0,
            MemoryAdressingMode::Absolute
            | MemoryAdressingMode::AbsoluteX
            | MemoryAdressingMode::AbsoluteY
            | MemoryAdressingMode::Indirect => 2,
            _ => 1,
        };
        assert_eq!(ins.bytes, 1 + operand_bytes);
        if ins.instruction_type == InstructionType::NotImplemented {
            assert_eq!(ins.cycle, 0);
        }
    }
    assert_eq!(get_instruction_from_opcode(OPCODE_EXIT as usize).instruction_type, InstructionType::NotImplemented);
    let lda = get_instruction_from_opcode(0xbd);
    assert_eq!((lda.bytes, lda.cycle, lda.plus_cycle), (3, 4, true));
}

#[test]
fn status_flags_pack_into_one_byte() {
    let status = ProcessorStatus::new(true, false, true, false, true, true, false, true);
    assert_eq!(status.bits(), 0b1011_0101);
    let mut s = ProcessorStatus::default();
    s.set_overflow(true);
    s.set_decimal(true);
    s.set_zero(true);
    s.set_break2(true);
    s.set_interrupt_disable(true);
    s.set_negative(true);
    s.set_break(true);
    s.set_carry(true);
    assert_eq!(s.bits(), 0xff);
    s.set_decimal(false);
    assert_eq!(s.bits(), 0xf7);
    assert!(ProcessorStatus::is_negative(0x80));
    assert!(!ProcessorStatus::is_negative(0x7f));
}
