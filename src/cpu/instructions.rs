use vstd::prelude::*;

verus! {

use self::InstructionType as K;
use self::MemoryAdressingMode as M;

/// The operation an opcode performs.
#[derive(Clone, Copy, Debug, PartialEq, Eq, Structural)]
pub enum InstructionType {
    NotImplemented,
    ADC,
    AND,
    ASL,
    BCC,
    BCS,
    BEQ,
    BIT,
    BMI,
    BNE,
    BPL,
    BRK,
    BVC,
    BVS,
    CLC,
    CLD,
    CLI,
    CLV,
    CMP,
    CPX,
    CPY,
    DEC,
    DEX,
    DEY,
    EOR,
    INC,
    INX,
    INY,
    ISB,
    JMP,
    JSR,
    LDA,
    LDX,
    LDY,
    LSR,
    NOP,
    ORA,
    PHA,
    PHP,
    PLA,
    PLP,
    ROL,
    ROR,
    RTI,
    RTS,
    SBC,
    SEC,
    SED,
    SEI,
    STA,
    STX,
    STY,
    TAX,
    TAY,
    TSX,
    TXA,
    TXS,
    TYA,
}

/// How an instruction finds its operand.
#[derive(Clone, Copy, Debug, PartialEq, Eq, Structural)]
pub enum MemoryAdressingMode {
    Immediate,
    Implied,
    Absolute,
    AbsoluteX,
    AbsoluteY,
    ZeroPage,
    ZeroPageX,
    ZeroPageY,
    Indirect,
    IndirectX,
    IndirectY,
    Relative,
    Accumulator,
}

/// A static descriptor of one opcode.
#[derive(Clone, Copy, Debug, PartialEq, Eq, Structural)]
pub struct Instruction {
    pub op_code: u8,
    /// Length of the instruction in bytes, opcode included.
    pub bytes: u8,
    /// Base cycle cost.
    pub cycle: u8,
    pub instruction_type: InstructionType,
    pub memory_addressing_mode: MemoryAdressingMode,
    /// Whether crossing a page while resolving the address costs one more cycle.
    pub plus_cycle: bool,
}

/// Number of operand bytes that follow the opcode in the given mode.
pub open spec fn operand_bytes(mode: MemoryAdressingMode) -> nat {
    match mode {
        M::Implied | M::Accumulator => 0,
        M::Immediate | M::ZeroPage | M::ZeroPageX | M::ZeroPageY | M::IndirectX | M::IndirectY
        | M::Relative => 1,
        M::Absolute | M::AbsoluteX | M::AbsoluteY | M::Indirect => 2,
    }
}

/// Modes that resolve to an address in memory.
pub open spec fn is_memory_mode(mode: MemoryAdressingMode) -> bool {
    match mode {
        M::Absolute | M::AbsoluteX | M::AbsoluteY | M::ZeroPage | M::ZeroPageX | M::ZeroPageY
        | M::IndirectX | M::IndirectY => true,
        _ => false,
    }
}

/// Modes that yield an operand value: memory, an immediate byte or the accumulator.
pub open spec fn is_value_mode(mode: MemoryAdressingMode) -> bool {
    is_memory_mode(mode) || mode == M::Immediate || mode == M::Accumulator
}

/// Whether an operation can be carried out in the given addressing mode.
pub open spec fn mode_fits(kind: InstructionType, mode: MemoryAdressingMode) -> bool {
    match kind {
        K::ADC | K::AND | K::BIT | K::CMP | K::CPX | K::CPY | K::EOR | K::LDA | K::LDX | K::LDY
        | K::ORA | K::SBC => is_value_mode(mode),
        K::ASL | K::LSR | K::ROL | K::ROR => is_memory_mode(mode) || mode == M::Accumulator,
        K::DEC | K::INC | K::ISB | K::STA | K::STX | K::STY => is_memory_mode(mode),
        K::BCC | K::BCS | K::BEQ | K::BMI | K::BNE | K::BPL | K::BVC | K::BVS => mode
            == M::Relative,
        K::JMP => mode == M::Absolute || mode == M::Indirect,
        K::JSR => mode == M::Absolute,
        K::NOP => mode == M::Implied || is_value_mode(mode),
        _ => mode == M::Implied,
    }
}

/// A descriptor whose byte count matches its mode and whose mode suits its operation.
pub open spec fn well_formed(ins: Instruction) -> bool {
    &&& ins.bytes == 1 + operand_bytes(ins.memory_addressing_mode)
    &&& mode_fits(ins.instruction_type, ins.memory_addressing_mode)
    &&& ins.cycle <= 7
    &&& (ins.instruction_type == K::NotImplemented ==> ins.cycle == 0)
}

/// A descriptor with the given fields.
pub open spec fn ins(
    op_code: u8,
    instruction_type: InstructionType,
    memory_addressing_mode: MemoryAdressingMode,
    bytes: u8,
    cycle: u8,
    plus_cycle: bool,
) -> Instruction {
    Instruction { op_code, bytes, cycle, instruction_type, memory_addressing_mode, plus_cycle }
}

/// The instruction table: mnemonic, addressing mode, length and base cycles of each opcode.
pub open spec fn instruction_spec(op: u8) -> Instruction {
    match op {
        0x00 => ins(op, K::BRK, M::Implied, 1, 7, false),
        0x01 => ins(op, K::ORA, M::IndirectX, 2, 6, false),
        0x05 => ins(op, K::ORA, M::ZeroPage, 2, 3, false),
        0x06 => ins(op, K::ASL, M::ZeroPage, 2, 5, false),
        0x08 => ins(op, K::PHP, M::Implied, 1, 3, false),
        0x09 => ins(op, K::ORA, M::Immediate, 2, 2, false),
        0x0A => ins(op, K::ASL, M::Accumulator, 1, 2, false),
        0x0D => ins(op, K::ORA, M::Absolute, 3, 4, false),
        0x0E => ins(op, K::ASL, M::Absolute, 3, 6, false),
        0x10 => ins(op, K::BPL, M::Relative, 2, 2, false),
        0x11 => ins(op, K::ORA, M::IndirectY, 2, 5, true),
        0x15 => ins(op, K::ORA, M::ZeroPageX, 2, 4, false),
        0x16 => ins(op, K::ASL, M::ZeroPageX, 2, 6, false),
        0x18 => ins(op, K::CLC, M::Implied, 1, 2, false),
        0x19 => ins(op, K::ORA, M::AbsoluteY, 3, 4, true),
        0x1D => ins(op, K::ORA, M::AbsoluteX, 3, 4, true),
        0x1E => ins(op, K::ASL, M::AbsoluteX, 3, 7, false),
        0x20 => ins(op, K::JSR, M::Absolute, 3, 6, false),
        0x21 => ins(op, K::AND, M::IndirectX, 2, 6, false),
        0x24 => ins(op, K::BIT, M::ZeroPage, 2, 3, false),
        0x25 => ins(op, K::AND, M::ZeroPage, 2, 3, false),
        0x26 => ins(op, K::ROL, M::ZeroPage, 2, 5, false),
        0x28 => ins(op, K::PLP, M::Implied, 1, 4, false),
        0x29 => ins(op, K::AND, M::Immediate, 2, 2, false),
        0x2A => ins(op, K::ROL, M::Accumulator, 1, 2, false),
        0x2C => ins(op, K::BIT, M::Absolute, 3, 4, false),
        0x2D => ins(op, K::AND, M::Absolute, 3, 4, false),
        0x2E => ins(op, K::ROL, M::Absolute, 3, 6, false),
        0x30 => ins(op, K::BMI, M::Relative, 2, 2, false),
        0x31 => ins(op, K::AND, M::IndirectY, 2, 5, true),
        0x35 => ins(op, K::AND, M::ZeroPageX, 2, 4, false),
        0x36 => ins(op, K::ROL, M::ZeroPageX, 2, 6, false),
        0x38 => ins(op, K::SEC, M::Implied, 1, 2, false),
        0x39 => ins(op, K::AND, M::AbsoluteY, 3, 4, true),
        0x3D => ins(op, K::AND, M::AbsoluteX, 3, 4, true),
        0x3E => ins(op, K::ROL, M::AbsoluteX, 3, 7, false),
        0x40 => ins(op, K::RTI, M::Implied, 1, 6, false),
        0x41 => ins(op, K::EOR, M::IndirectX, 2, 6, false),
        0x45 => ins(op, K::EOR, M::ZeroPage, 2, 3, false),
        0x46 => ins(op, K::LSR, M::ZeroPage, 2, 5, false),
        0x48 => ins(op, K::PHA, M::Implied, 1, 3, false),
        0x49 => ins(op, K::EOR, M::Immediate, 2, 2, false),
        0x4A => ins(op, K::LSR, M::Accumulator, 1, 2, false),
        0x4C => ins(op, K::JMP, M::Absolute, 3, 3, false),
        0x4D => ins(op, K::EOR, M::Absolute, 3, 4, false),
        0x4E => ins(op, K::LSR, M::Absolute, 3, 6, false),
        0x50 => ins(op, K::BVC, M::Relative, 2, 2, false),
        0x51 => ins(op, K::EOR, M::IndirectY, 2, 5, true),
        0x55 => ins(op, K::EOR, M::ZeroPageX, 2, 4, false),
        0x56 => ins(op, K::LSR, M::ZeroPageX, 2, 6, false),
        0x58 => ins(op, K::CLI, M::Implied, 1, 2, false),
        0x59 => ins(op, K::EOR, M::AbsoluteY, 3, 4, true),
        0x5D => ins(op, K::EOR, M::AbsoluteX, 3, 4, true),
        0x5E => ins(op, K::LSR, M::AbsoluteX, 3, 7, false),
        0x60 => ins(op, K::RTS, M::Implied, 1, 6, false),
        0x61 => ins(op, K::ADC, M::IndirectX, 2, 6, false),
        0x65 => ins(op, K::ADC, M::ZeroPage, 2, 3, false),
        0x66 => ins(op, K::ROR, M::ZeroPage, 2, 5, false),
        0x68 => ins(op, K::PLA, M::Implied, 1, 4, false),
        0x69 => ins(op, K::ADC, M::Immediate, 2, 2, false),
        0x6A => ins(op, K::ROR, M::Accumulator, 1, 2, false),
        0x6C => ins(op, K::JMP, M::Indirect, 3, 5, false),
        0x6D => ins(op, K::ADC, M::Absolute, 3, 4, false),
        0x6E => ins(op, K::ROR, M::Absolute, 3, 6, false),
        0x70 => ins(op, K::BVS, M::Relative, 2, 2, false),
        0x71 => ins(op, K::ADC, M::IndirectY, 2, 5, true),
        0x75 => ins(op, K::ADC, M::ZeroPageX, 2, 4, false),
        0x76 => ins(op, K::ROR, M::ZeroPageX, 2, 6, false),
        0x78 => ins(op, K::SEI, M::Implied, 1, 2, false),
        0x79 => ins(op, K::ADC, M::AbsoluteY, 3, 4, true),
        0x7D => ins(op, K::ADC, M::AbsoluteX, 3, 4, true),
        0x7E => ins(op, K::ROR, M::AbsoluteX, 3, 7, false),
        0x81 => ins(op, K::STA, M::IndirectX, 2, 6, false),
        0x84 => ins(op, K::STY, M::ZeroPage, 2, 3, false),
        0x85 => ins(op, K::STA, M::ZeroPage, 2, 3, false),
        0x86 => ins(op, K::STX, M::ZeroPage, 2, 3, false),
        0x88 => ins(op, K::DEY, M::Implied, 1, 2, false),
        0x8A => ins(op, K::TXA, M::Implied, 1, 2, false),
        0x8C => ins(op, K::STY, M::Absolute, 3, 4, false),
        0x8D => ins(op, K::STA, M::Absolute, 3, 4, false),
        0x8E => ins(op, K::STX, M::Absolute, 3, 4, false),
        0x90 => ins(op, K::BCC, M::Relative, 2, 2, false),
        0x91 => ins(op, K::STA, M::IndirectY, 2, 6, false),
        0x94 => ins(op, K::STY, M::ZeroPageX, 2, 4, false),
        0x95 => ins(op, K::STA, M::ZeroPageX, 2, 4, false),
        0x96 => ins(op, K::STX, M::ZeroPageY, 2, 4, false),
        0x98 => ins(op, K::TYA, M::Implied, 1, 2, false),
        0x99 => ins(op, K::STA, M::AbsoluteY, 3, 5, false),
        0x9A => ins(op, K::TXS, M::Implied, 1, 2, false),
        0x9D => ins(op, K::STA, M::AbsoluteX, 3, 5, false),
        0xA0 => ins(op, K::LDY, M::Immediate, 2, 2, false),
        0xA1 => ins(op, K::LDA, M::IndirectX, 2, 6, false),
        0xA2 => ins(op, K::LDX, M::Immediate, 2, 2, false),
        0xA4 => ins(op, K::LDY, M::ZeroPage, 2, 3, false),
        0xA5 => ins(op, K::LDA, M::ZeroPage, 2, 3, false),
        0xA6 => ins(op, K::LDX, M::ZeroPage, 2, 3, false),
        0xA8 => ins(op, K::TAY, M::Implied, 1, 2, false),
        0xA9 => ins(op, K::LDA, M::Immediate, 2, 2, false),
        0xAA => ins(op, K::TAX, M::Implied, 1, 2, false),
        0xAC => ins(op, K::LDY, M::Absolute, 3, 4, false),
        0xAD => ins(op, K::LDA, M::Absolute, 3, 4, false),
        0xAE => ins(op, K::LDX, M::Absolute, 3, 4, false),
        0xB0 => ins(op, K::BCS, M::Relative, 2, 2, false),
        0xB1 => ins(op, K::LDA, M::IndirectY, 2, 5, true),
        0xB4 => ins(op, K::LDY, M::ZeroPageX, 2, 4, false),
        0xB5 => ins(op, K::LDA, M::ZeroPageX, 2, 4, false),
        0xB6 => ins(op, K::LDX, M::ZeroPageY, 2, 4, false),
        0xB8 => ins(op, K::CLV, M::Implied, 1, 2, false),
        0xB9 => ins(op, K::LDA, M::AbsoluteY, 3, 4, true),
        0xBA => ins(op, K::TSX, M::Implied, 1, 2, false),
        0xBC => ins(op, K::LDY, M::AbsoluteX, 3, 4, true),
        0xBD => ins(op, K::LDA, M::AbsoluteX, 3, 4, true),
        0xBE => ins(op, K::LDX, M::AbsoluteY, 3, 4, true),
        0xC0 => ins(op, K::CPY, M::Immediate, 2, 2, false),
        0xC1 => ins(op, K::CMP, M::IndirectX, 2, 6, false),
        0xC4 => ins(op, K::CPY, M::ZeroPage, 2, 3, false),
        0xC5 => ins(op, K::CMP, M::ZeroPage, 2, 3, false),
        0xC6 => ins(op, K::DEC, M::ZeroPage, 2, 5, false),
        0xC8 => ins(op, K::INY, M::Implied, 1, 2, false),
        0xC9 => ins(op, K::CMP, M::Immediate, 2, 2, false),
        0xCA => ins(op, K::DEX, M::Implied, 1, 2, false),
        0xCC => ins(op, K::CPY, M::Absolute, 3, 4, false),
        0xCD => ins(op, K::CMP, M::Absolute, 3, 4, false),
        0xCE => ins(op, K::DEC, M::Absolute, 3, 6, false),
        0xD0 => ins(op, K::BNE, M::Relative, 2, 2, false),
        0xD1 => ins(op, K::CMP, M::IndirectY, 2, 5, true),
        0xD5 => ins(op, K::CMP, M::ZeroPageX, 2, 4, false),
        0xD6 => ins(op, K::DEC, M::ZeroPageX, 2, 6, false),
        0xD8 => ins(op, K::CLD, M::Implied, 1, 2, false),
        0xD9 => ins(op, K::CMP, M::AbsoluteY, 3, 4, true),
        0xDD => ins(op, K::CMP, M::AbsoluteX, 3, 4, true),
        0xDE => ins(op, K::DEC, M::AbsoluteX, 3, 7, false),
        0xE0 => ins(op, K::CPX, M::Immediate, 2, 2, false),
        0xE1 => ins(op, K::SBC, M::IndirectX, 2, 6, false),
        0xE4 => ins(op, K::CPX, M::ZeroPage, 2, 3, false),
        0xE5 => ins(op, K::SBC, M::ZeroPage, 2, 3, false),
        0xE6 => ins(op, K::INC, M::ZeroPage, 2, 5, false),
        0xE8 => ins(op, K::INX, M::Implied, 1, 2, false),
        0xE9 => ins(op, K::SBC, M::Immediate, 2, 2, false),
        0xEA => ins(op, K::NOP, M::Implied, 1, 2, false),
        0xEC => ins(op, K::CPX, M::Absolute, 3, 4, false),
        0xED => ins(op, K::SBC, M::Absolute, 3, 4, false),
        0xEE => ins(op, K::INC, M::Absolute, 3, 6, false),
        0xF0 => ins(op, K::BEQ, M::Relative, 2, 2, false),
        0xF1 => ins(op, K::SBC, M::IndirectY, 2, 5, true),
        0xF5 => ins(op, K::SBC, M::ZeroPageX, 2, 4, false),
        0xF6 => ins(op, K::INC, M::ZeroPageX, 2, 6, false),
        0xF8 => ins(op, K::SED, M::Implied, 1, 2, false),
        0xF9 => ins(op, K::SBC, M::AbsoluteY, 3, 4, true),
        0xFD => ins(op, K::SBC, M::AbsoluteX, 3, 4, true),
        0xFE => ins(op, K::INC, M::AbsoluteX, 3, 7, false),
        0xFF => ins(op, K::ISB, M::IndirectX, 2, 7, false),
        _ => ins(op, K::NotImplemented, M::Implied, 1, 0, false),
    }
}

fn entry(
    op_code: u8,
    instruction_type: InstructionType,
    memory_addressing_mode: MemoryAdressingMode,
    bytes: u8,
    cycle: u8,
    plus_cycle: bool,
) -> (r: Instruction)
    requires
        well_formed(
            Instruction { op_code, bytes, cycle, instruction_type, memory_addressing_mode, plus_cycle },
        ),
    ensures
        well_formed(r),
        r == (Instruction {
            op_code,
            bytes,
            cycle,
            instruction_type,
            memory_addressing_mode,
            plus_cycle,
        }),
{
    Instruction { op_code, bytes, cycle, instruction_type, memory_addressing_mode, plus_cycle }
}

/// The descriptor of `op_code`; opcodes without an operation get a zero-cycle sentinel.
pub fn get_instruction_from_opcode(op_code: usize) -> (r: Instruction)
    requires
        op_code < 256,
    ensures
        r.op_code == op_code,
        r == instruction_spec(op_code as u8),
        well_formed(r),
{
    let op = op_code as u8;
    match op / 16 {
        0 => row_0(op),
        1 => row_1(op),
        2 => row_2(op),
        3 => row_3(op),
        4 => row_4(op),
        5 => row_5(op),
        6 => row_6(op),
        7 => row_7(op),
        8 => row_8(op),
        9 => row_9(op),
        10 => row_a(op),
        11 => row_b(op),
        12 => row_c(op),
        13 => row_d(op),
        14 => row_e(op),
        _ => row_f(op),
    }
}

fn row_0(op: u8) -> (r: Instruction)
    requires
        op / 16 == 0,
    ensures
        r.op_code == op,
        r == instruction_spec(op),
        well_formed(r),
{
    match op {
        0x00 => entry(op, K::BRK, M::Implied, 1, 7, false),
        0x01 => entry(op, K::ORA, M::IndirectX, 2, 6, false),
        0x05 => entry(op, K::ORA, M::ZeroPage, 2, 3, false),
        0x06 => entry(op, K::ASL, M::ZeroPage, 2, 5, false),
        0x08 => entry(op, K::PHP, M::Implied, 1, 3, false),
        0x09 => entry(op, K::ORA, M::Immediate, 2, 2, false),
        0x0A => entry(op, K::ASL, M::Accumulator, 1, 2, false),
        0x0D => entry(op, K::ORA, M::Absolute, 3, 4, false),
        0x0E => entry(op, K::ASL, M::Absolute, 3, 6, false),
        _ => entry(op, K::NotImplemented, M::Implied, 1, 0, false),
    }
}

fn row_1(op: u8) -> (r: Instruction)
    requires
        op / 16 == 1,
    ensures
        r.op_code == op,
        r == instruction_spec(op),
        well_formed(r),
{
    match op {
        0x10 => entry(op, K::BPL, M::Relative, 2, 2, false),
        0x11 => entry(op, K::ORA, M::IndirectY, 2, 5, true),
        0x15 => entry(op, K::ORA, M::ZeroPageX, 2, 4, false),
        0x16 => entry(op, K::ASL, M::ZeroPageX, 2, 6, false),
        0x18 => entry(op, K::CLC, M::Implied, 1, 2, false),
        0x19 => entry(op, K::ORA, M::AbsoluteY, 3, 4, true),
        0x1D => entry(op, K::ORA, M::AbsoluteX, 3, 4, true),
        0x1E => entry(op, K::ASL, M::AbsoluteX, 3, 7, false),
        _ => entry(op, K::NotImplemented, M::Implied, 1, 0, false),
    }
}

fn row_2(op: u8) -> (r: Instruction)
    requires
        op / 16 == 2,
    ensures
        r.op_code == op,
        r == instruction_spec(op),
        well_formed(r),
{
    match op {
        0x20 => entry(op, K::JSR, M::Absolute, 3, 6, false),
        0x21 => entry(op, K::AND, M::IndirectX, 2, 6, false),
        0x24 => entry(op, K::BIT, M::ZeroPage, 2, 3, false),
        0x25 => entry(op, K::AND, M::ZeroPage, 2, 3, false),
        0x26 => entry(op, K::ROL, M::ZeroPage, 2, 5, false),
        0x28 => entry(op, K::PLP, M::Implied, 1, 4, false),
        0x29 => entry(op, K::AND, M::Immediate, 2, 2, false),
        0x2A => entry(op, K::ROL, M::Accumulator, 1, 2, false),
        0x2C => entry(op, K::BIT, M::Absolute, 3, 4, false),
        0x2D => entry(op, K::AND, M::Absolute, 3, 4, false),
        0x2E => entry(op, K::ROL, M::Absolute, 3, 6, false),
        _ => entry(op, K::NotImplemented, M::Implied, 1, 0, false),
    }
}

fn row_3(op: u8) -> (r: Instruction)
    requires
        op / 16 == 3,
    ensures
        r.op_code == op,
        r == instruction_spec(op),
        well_formed(r),
{
    match op {
        0x30 => entry(op, K::BMI, M::Relative, 2, 2, false),
        0x31 => entry(op, K::AND, M::IndirectY, 2, 5, true),
        0x35 => entry(op, K::AND, M::ZeroPageX, 2, 4, false),
        0x36 => entry(op, K::ROL, M::ZeroPageX, 2, 6, false),
        0x38 => entry(op, K::SEC, M::Implied, 1, 2, false),
        0x39 => entry(op, K::AND, M::AbsoluteY, 3, 4, true),
        0x3D => entry(op, K::AND, M::AbsoluteX, 3, 4, true),
        0x3E => entry(op, K::ROL, M::AbsoluteX, 3, 7, false),
        _ => entry(op, K::NotImplemented, M::Implied, 1, 0, false),
    }
}

fn row_4(op: u8) -> (r: Instruction)
    requires
        op / 16 == 4,
    ensures
        r.op_code == op,
        r == instruction_spec(op),
        well_formed(r),
{
    match op {
        0x40 => entry(op, K::RTI, M::Implied, 1, 6, false),
        0x41 => entry(op, K::EOR, M::IndirectX, 2, 6, false),
        0x45 => entry(op, K::EOR, M::ZeroPage, 2, 3, false),
        0x46 => entry(op, K::LSR, M::ZeroPage, 2, 5, false),
        0x48 => entry(op, K::PHA, M::Implied, 1, 3, false),
        0x49 => entry(op, K::EOR, M::Immediate, 2, 2, false),
        0x4A => entry(op, K::LSR, M::Accumulator, 1, 2, false),
        0x4C => entry(op, K::JMP, M::Absolute, 3, 3, false),
        0x4D => entry(op, K::EOR, M::Absolute, 3, 4, false),
        0x4E => entry(op, K::LSR, M::Absolute, 3, 6, false),
        _ => entry(op, K::NotImplemented, M::Implied, 1, 0, false),
    }
}

fn row_5(op: u8) -> (r: Instruction)
    requires
        op / 16 == 5,
    ensures
        r.op_code == op,
        r == instruction_spec(op),
        well_formed(r),
{
    match op {
        0x50 => entry(op, K::BVC, M::Relative, 2, 2, false),
        0x51 => entry(op, K::EOR, M::IndirectY, 2, 5, true),
        0x55 => entry(op, K::EOR, M::ZeroPageX, 2, 4, false),
        0x56 => entry(op, K::LSR, M::ZeroPageX, 2, 6, false),
        0x58 => entry(op, K::CLI, M::Implied, 1, 2, false),
        0x59 => entry(op, K::EOR, M::AbsoluteY, 3, 4, true),
        0x5D => entry(op, K::EOR, M::AbsoluteX, 3, 4, true),
        0x5E => entry(op, K::LSR, M::AbsoluteX, 3, 7, false),
        _ => entry(op, K::NotImplemented, M::Implied, 1, 0, false),
    }
}

fn row_6(op: u8) -> (r: Instruction)
    requires
        op / 16 == 6,
    ensures
        r.op_code == op,
        r == instruction_spec(op),
        well_formed(r),
{
    match op {
        0x60 => entry(op, K::RTS, M::Implied, 1, 6, false),
        0x61 => entry(op, K::ADC, M::IndirectX, 2, 6, false),
        0x65 => entry(op, K::ADC, M::ZeroPage, 2, 3, false),
        0x66 => entry(op, K::ROR, M::ZeroPage, 2, 5, false),
        0x68 => entry(op, K::PLA, M::Implied, 1, 4, false),
        0x69 => entry(op, K::ADC, M::Immediate, 2, 2, false),
        0x6A => entry(op, K::ROR, M::Accumulator, 1, 2, false),
        0x6C => entry(op, K::JMP, M::Indirect, 3, 5, false),
        0x6D => entry(op, K::ADC, M::Absolute, 3, 4, false),
        0x6E => entry(op, K::ROR, M::Absolute, 3, 6, false),
        _ => entry(op, K::NotImplemented, M::Implied, 1, 0, false),
    }
}

fn row_7(op: u8) -> (r: Instruction)
    requires
        op / 16 == 7,
    ensures
        r.op_code == op,
        r == instruction_spec(op),
        well_formed(r),
{
    match op {
        0x70 => entry(op, K::BVS, M::Relative, 2, 2, false),
        0x71 => entry(op, K::ADC, M::IndirectY, 2, 5, true),
        0x75 => entry(op, K::ADC, M::ZeroPageX, 2, 4, false),
        0x76 => entry(op, K::ROR, M::ZeroPageX, 2, 6, false),
        0x78 => entry(op, K::SEI, M::Implied, 1, 2, false),
        0x79 => entry(op, K::ADC, M::AbsoluteY, 3, 4, true),
        0x7D => entry(op, K::ADC, M::AbsoluteX, 3, 4, true),
        0x7E => entry(op, K::ROR, M::AbsoluteX, 3, 7, false),
        _ => entry(op, K::NotImplemented, M::Implied, 1, 0, false),
    }
}

fn row_8(op: u8) -> (r: Instruction)
    requires
        op / 16 == 8,
    ensures
        r.op_code == op,
        r == instruction_spec(op),
        well_formed(r),
{
    match op {
        0x81 => entry(op, K::STA, M::IndirectX, 2, 6, false),
        0x84 => entry(op, K::STY, M::ZeroPage, 2, 3, false),
        0x85 => entry(op, K::STA, M::ZeroPage, 2, 3, false),
        0x86 => entry(op, K::STX, M::ZeroPage, 2, 3, false),
        0x88 => entry(op, K::DEY, M::Implied, 1, 2, false),
        0x8A => entry(op, K::TXA, M::Implied, 1, 2, false),
        0x8C => entry(op, K::STY, M::Absolute, 3, 4, false),
        0x8D => entry(op, K::STA, M::Absolute, 3, 4, false),
        0x8E => entry(op, K::STX, M::Absolute, 3, 4, false),
        _ => entry(op, K::NotImplemented, M::Implied, 1, 0, false),
    }
}

fn row_9(op: u8) -> (r: Instruction)
    requires
        op / 16 == 9,
    ensures
        r.op_code == op,
        r == instruction_spec(op),
        well_formed(r),
{
    match op {
        0x90 => entry(op, K::BCC, M::Relative, 2, 2, false),
        0x91 => entry(op, K::STA, M::IndirectY, 2, 6, false),
        0x94 => entry(op, K::STY, M::ZeroPageX, 2, 4, false),
        0x95 => entry(op, K::STA, M::ZeroPageX, 2, 4, false),
        0x96 => entry(op, K::STX, M::ZeroPageY, 2, 4, false),
        0x98 => entry(op, K::TYA, M::Implied, 1, 2, false),
        0x99 => entry(op, K::STA, M::AbsoluteY, 3, 5, false),
        0x9A => entry(op, K::TXS, M::Implied, 1, 2, false),
        0x9D => entry(op, K::STA, M::AbsoluteX, 3, 5, false),
        _ => entry(op, K::NotImplemented, M::Implied, 1, 0, false),
    }
}

fn row_a(op: u8) -> (r: Instruction)
    requires
        op / 16 == 10,
    ensures
        r.op_code == op,
        r == instruction_spec(op),
        well_formed(r),
{
    match op {
        0xA0 => entry(op, K::LDY, M::Immediate, 2, 2, false),
        0xA1 => entry(op, K::LDA, M::IndirectX, 2, 6, false),
        0xA2 => entry(op, K::LDX, M::Immediate, 2, 2, false),
        0xA4 => entry(op, K::LDY, M::ZeroPage, 2, 3, false),
        0xA5 => entry(op, K::LDA, M::ZeroPage, 2, 3, false),
        0xA6 => entry(op, K::LDX, M::ZeroPage, 2, 3, false),
        0xA8 => entry(op, K::TAY, M::Implied, 1, 2, false),
        0xA9 => entry(op, K::LDA, M::Immediate, 2, 2, false),
        0xAA => entry(op, K::TAX, M::Implied, 1, 2, false),
        0xAC => entry(op, K::LDY, M::Absolute, 3, 4, false),
        0xAD => entry(op, K::LDA, M::Absolute, 3, 4, false),
        0xAE => entry(op, K::LDX, M::Absolute, 3, 4, false),
        _ => entry(op, K::NotImplemented, M::Implied, 1, 0, false),
    }
}

fn row_b(op: u8) -> (r: Instruction)
    requires
        op / 16 == 11,
    ensures
        r.op_code == op,
        r == instruction_spec(op),
        well_formed(r),
{
    match op {
        0xB0 => entry(op, K::BCS, M::Relative, 2, 2, false),
        0xB1 => entry(op, K::LDA, M::IndirectY, 2, 5, true),
        0xB4 => entry(op, K::LDY, M::ZeroPageX, 2, 4, false),
        0xB5 => entry(op, K::LDA, M::ZeroPageX, 2, 4, false),
        0xB6 => entry(op, K::LDX, M::ZeroPageY, 2, 4, false),
        0xB8 => entry(op, K::CLV, M::Implied, 1, 2, false),
        0xB9 => entry(op, K::LDA, M::AbsoluteY, 3, 4, true),
        0xBA => entry(op, K::TSX, M::Implied, 1, 2, false),
        0xBC => entry(op, K::LDY, M::AbsoluteX, 3, 4, true),
        0xBD => entry(op, K::LDA, M::AbsoluteX, 3, 4, true),
        0xBE => entry(op, K::LDX, M::AbsoluteY, 3, 4, true),
        _ => entry(op, K::NotImplemented, M::Implied, 1, 0, false),
    }
}

fn row_c(op: u8) -> (r: Instruction)
    requires
        op / 16 == 12,
    ensures
        r.op_code == op,
        r == instruction_spec(op),
        well_formed(r),
{
    match op {
        0xC0 => entry(op, K::CPY, M::Immediate, 2, 2, false),
        0xC1 => entry(op, K::CMP, M::IndirectX, 2, 6, false),
        0xC4 => entry(op, K::CPY, M::ZeroPage, 2, 3, false),
        0xC5 => entry(op, K::CMP, M::ZeroPage, 2, 3, false),
        0xC6 => entry(op, K::DEC, M::ZeroPage, 2, 5, false),
        0xC8 => entry(op, K::INY, M::Implied, 1, 2, false),
        0xC9 => entry(op, K::CMP, M::Immediate, 2, 2, false),
        0xCA => entry(op, K::DEX, M::Implied, 1, 2, false),
        0xCC => entry(op, K::CPY, M::Absolute, 3, 4, false),
        0xCD => entry(op, K::CMP, M::Absolute, 3, 4, false),
        0xCE => entry(op, K::DEC, M::Absolute, 3, 6, false),
        _ => entry(op, K::NotImplemented, M::Implied, 1, 0, false),
    }
}

fn row_d(op: u8) -> (r: Instruction)
    requires
        op / 16 == 13,
    ensures
        r.op_code == op,
        r == instruction_spec(op),
        well_formed(r),
{
    match op {
        0xD0 => entry(op, K::BNE, M::Relative, 2, 2, false),
        0xD1 => entry(op, K::CMP, M::IndirectY, 2, 5, true),
        0xD5 => entry(op, K::CMP, M::ZeroPageX, 2, 4, false),
        0xD6 => entry(op, K::DEC, M::ZeroPageX, 2, 6, false),
        0xD8 => entry(op, K::CLD, M::Implied, 1, 2, false),
        0xD9 => entry(op, K::CMP, M::AbsoluteY, 3, 4, true),
        0xDD => entry(op, K::CMP, M::AbsoluteX, 3, 4, true),
        0xDE => entry(op, K::DEC, M::AbsoluteX, 3, 7, false),
        _ => entry(op, K::NotImplemented, M::Implied, 1, 0, false),
    }
}

fn row_e(op: u8) -> (r: Instruction)
    requires
        op / 16 == 14,
    ensures
        r.op_code == op,
        r == instruction_spec(op),
        well_formed(r),
{
    match op {
        0xE0 => entry(op, K::CPX, M::Immediate, 2, 2, false),
        0xE1 => entry(op, K::SBC, M::IndirectX, 2, 6, false),
        0xE4 => entry(op, K::CPX, M::ZeroPage, 2, 3, false),
        0xE5 => entry(op, K::SBC, M::ZeroPage, 2, 3, false),
        0xE6 => entry(op, K::INC, M::ZeroPage, 2, 5, false),
        0xE8 => entry(op, K::INX, M::Implied, 1, 2, false),
        0xE9 => entry(op, K::SBC, M::Immediate, 2, 2, false),
        0xEA => entry(op, K::NOP, M::Implied, 1, 2, false),
        0xEC => entry(op, K::CPX, M::Absolute, 3, 4, false),
        0xED => entry(op, K::SBC, M::Absolute, 3, 4, false),
        0xEE => entry(op, K::INC, M::Absolute, 3, 6, false),
        _ => entry(op, K::NotImplemented, M::Implied, 1, 0, false),
    }
}

fn row_f(op: u8) -> (r: Instruction)
    requires
        op / 16 == 15,
    ensures
        r.op_code == op,
        r == instruction_spec(op),
        well_formed(r),
{
    match op {
        0xF0 => entry(op, K::BEQ, M::Relative, 2, 2, false),
        0xF1 => entry(op, K::SBC, M::IndirectY, 2, 5, true),
        0xF5 => entry(op, K::SBC, M::ZeroPageX, 2, 4, false),
        0xF6 => entry(op, K::INC, M::ZeroPageX, 2, 6, false),
        0xF8 => entry(op, K::SED, M::Implied, 1, 2, false),
        0xF9 => entry(op, K::SBC, M::AbsoluteY, 3, 4, true),
        0xFD => entry(op, K::SBC, M::AbsoluteX, 3, 4, true),
        0xFE => entry(op, K::INC, M::AbsoluteX, 3, 7, false),
        0xFF => entry(op, K::ISB, M::IndirectX, 2, 7, false),
        _ => entry(op, K::NotImplemented, M::Implied, 1, 0, false),
    }
}

} // verus!
