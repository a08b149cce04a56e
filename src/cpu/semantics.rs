//! What each instruction does, as functions on plain values.
use vstd::prelude::*;

verus! {

use crate::bus::{bus_read, bus_ticked, bus_wf, bus_write, rom_byte, BusError, BusView};
use crate::cpu::instructions::{instruction_spec, Instruction, InstructionType as K};
use crate::cpu::instructions::MemoryAdressingMode as M;
use crate::cpu::interrupt::{interrupt_spec, Interrupt, InterruptType};
use crate::cpu::processor_status::{
    has_flag,
    with_flag,
    wrap16,
    wrap8,
    BREAK,
    BREAK2,
    CARRY,
    DECIMAL,
    INTERRUPT_DISABLE,
    NEGATIVE,
    OVERFLOW,
    ZERO,
};
use crate::ppu::PpuView;

/// The opcode that stops the run loop.
pub const OPCODE_EXIT: u8 = 0xf4;
/// Base of the stack page.
pub const STACK: u16 = 0x0100;

/// Registers and bus of the processor.
pub struct CpuState {
    pub pc: u16,
    pub sp: u8,
    pub a: u8,
    pub x: u8,
    pub y: u8,
    pub p: u8,
    pub bus: BusView,
}

/// A read of `addr` through the bus.
pub open spec fn read_at(s: CpuState, addr: u16) -> Result<(u8, CpuState), BusError> {
    match bus_read(s.bus, addr) {
        Ok((v, b)) => Ok((v, CpuState { bus: b, ..s })),
        Err(e) => Err(e),
    }
}

/// A write of `v` to `addr` through the bus.
pub open spec fn write_at(s: CpuState, addr: u16, v: u8) -> Result<CpuState, BusError> {
    match bus_write(s.bus, addr, v) {
        Ok(b) => Ok(CpuState { bus: b, ..s }),
        Err(e) => Err(e),
    }
}

/// The byte at the program counter, which then moves on by one.
#[verifier::opaque]
pub open spec fn fetch(s: CpuState) -> Result<(u8, CpuState), BusError> {
    match read_at(s, s.pc) {
        Ok((v, t)) => Ok((v, CpuState { pc: wrap16(s.pc + 1), ..t })),
        Err(e) => Err(e),
    }
}

/// The little-endian word at the program counter, which then moves on by two.
#[verifier::opaque]
pub open spec fn fetch_word(s: CpuState) -> Result<(u16, CpuState), BusError> {
    match fetch(s) {
        Err(e) => Err(e),
        Ok((lo, t)) => match fetch(t) {
            Err(e) => Err(e),
            Ok((hi, u)) => Ok(((hi * 256 + lo) as u16, u)),
        },
    }
}

/// `base + index` wrapping at 16 bits, and whether the high byte changed.
pub open spec fn indexed(base: u16, index: u8) -> (u16, bool) {
    let addr = wrap16(base + index);
    (addr, addr / 256 != base / 256)
}

/// The little-endian address stored in zero page at `ptr`; the second byte wraps within
/// zero page.
#[verifier::opaque]
pub open spec fn zero_page_pointer(s: CpuState, ptr: u8) -> Result<(u16, CpuState), BusError> {
    match read_at(s, ptr as u16) {
        Err(e) => Err(e),
        Ok((lo, t)) => match read_at(t, wrap8(ptr + 1) as u16) {
            Err(e) => Err(e),
            Ok((hi, u)) => Ok(((hi * 256 + lo) as u16, u)),
        },
    }
}

/// The effective address of a memory mode, whether resolving it crossed a page, and the
/// state after reading the operand bytes.
pub open spec fn resolve(s: CpuState, mode: M) -> Result<(u16, bool, CpuState), BusError> {
    match mode {
        M::Absolute => match fetch_word(s) {
            Ok((w, t)) => Ok((w, false, t)),
            Err(e) => Err(e),
        },
        M::AbsoluteX => match fetch_word(s) {
            Ok((w, t)) => Ok((indexed(w, s.x).0, indexed(w, s.x).1, t)),
            Err(e) => Err(e),
        },
        M::AbsoluteY => match fetch_word(s) {
            Ok((w, t)) => Ok((indexed(w, s.y).0, indexed(w, s.y).1, t)),
            Err(e) => Err(e),
        },
        M::ZeroPage => match fetch(s) {
            Ok((b, t)) => Ok((b as u16, false, t)),
            Err(e) => Err(e),
        },
        M::ZeroPageX => match fetch(s) {
            Ok((b, t)) => Ok((wrap8(b + s.x) as u16, false, t)),
            Err(e) => Err(e),
        },
        M::ZeroPageY => match fetch(s) {
            Ok((b, t)) => Ok((wrap8(b + s.y) as u16, false, t)),
            Err(e) => Err(e),
        },
        M::IndirectX => match fetch(s) {
            Err(e) => Err(e),
            Ok((b, t)) => match zero_page_pointer(t, wrap8(b + s.x)) {
                Ok((w, u)) => Ok((w, false, u)),
                Err(e) => Err(e),
            },
        },
        M::IndirectY => match fetch(s) {
            Err(e) => Err(e),
            Ok((b, t)) => match zero_page_pointer(t, b) {
                Ok((w, u)) => Ok((indexed(w, s.y).0, indexed(w, s.y).1, u)),
                Err(e) => Err(e),
            },
        },
        _ => Ok((0, false, s)),
    }
}

/// The operand value of a value mode, whether a page was crossed, and the state after.
pub open spec fn operand(s: CpuState, mode: M) -> Result<(u8, bool, CpuState), BusError> {
    match mode {
        M::Accumulator => Ok((s.a, false, s)),
        M::Immediate => match fetch(s) {
            Ok((v, t)) => Ok((v, false, t)),
            Err(e) => Err(e),
        },
        _ => match resolve(s, mode) {
            Err(e) => Err(e),
            Ok((addr, cross, t)) => match read_at(t, addr) {
                Ok((v, u)) => Ok((v, cross, u)),
                Err(e) => Err(e),
            },
        },
    }
}

/// Flags `p` with zero and negative set from `v`.
pub open spec fn nz(p: u8, v: u8) -> u8 {
    with_flag(with_flag(p, ZERO, v == 0), NEGATIVE, v >= 0x80)
}

pub open spec fn carry_in(p: u8) -> int {
    if has_flag(p, CARRY) {
        1
    } else {
        0
    }
}

/// `a + m + carry`: the low eight bits, and flags with carry out of bit 7, signed overflow
/// (both operands of one sign, result of the other), zero and negative.
pub open spec fn add_with_carry(a: u8, m: u8, p: u8) -> (u8, u8) {
    let sum = a + m + carry_in(p);
    let r = (sum % 256) as u8;
    let overflow = (a >= 0x80) == (m >= 0x80) && (r >= 0x80) != (a >= 0x80);
    (r, nz(with_flag(with_flag(p, CARRY, sum > 0xff), OVERFLOW, overflow), r))
}

/// Flags after comparing `reg` with `m`: carry iff `reg >= m`, zero and negative from the
/// wrapped difference.
pub open spec fn compared(reg: u8, m: u8, p: u8) -> u8 {
    nz(with_flag(p, CARRY, reg >= m), wrap8(reg - m))
}

/// The kinds that read an operand and change only registers.
pub open spec fn reads_operand(kind: K, mode: M) -> bool {
    match kind {
        K::ADC | K::AND | K::BIT | K::CMP | K::CPX | K::CPY | K::EOR | K::LDA | K::LDX | K::LDY
        | K::ORA | K::SBC => true,
        K::NOP => mode != M::Implied,
        _ => false,
    }
}

/// Registers after an operand-reading operation on operand `m`.
pub open spec fn apply_read(kind: K, s: CpuState, m: u8) -> CpuState {
    match kind {
        K::ADC => CpuState { a: add_with_carry(s.a, m, s.p).0, p: add_with_carry(s.a, m, s.p).1, ..s },
        K::SBC => CpuState {
            a: add_with_carry(s.a, (255 - m) as u8, s.p).0,
            p: add_with_carry(s.a, (255 - m) as u8, s.p).1,
            ..s
        },
        K::AND => CpuState { a: s.a & m, p: nz(s.p, s.a & m), ..s },
        K::ORA => CpuState { a: s.a | m, p: nz(s.p, s.a | m), ..s },
        K::EOR => CpuState { a: s.a ^ m, p: nz(s.p, s.a ^ m), ..s },
        K::CMP => CpuState { p: compared(s.a, m, s.p), ..s },
        K::CPX => CpuState { p: compared(s.x, m, s.p), ..s },
        K::CPY => CpuState { p: compared(s.y, m, s.p), ..s },
        K::LDA => CpuState { a: m, p: nz(s.p, m), ..s },
        K::LDX => CpuState { x: m, p: nz(s.p, m), ..s },
        K::LDY => CpuState { y: m, p: nz(s.p, m), ..s },
        K::BIT => CpuState {
            p: with_flag(
                with_flag(with_flag(s.p, ZERO, m & s.a == 0), NEGATIVE, m >= 0x80),
                OVERFLOW,
                m & 0x40 != 0,
            ),
            ..s
        },
        _ => s,
    }
}

/// The kinds that modify a byte in place, in memory or in the accumulator.
pub open spec fn is_modify(kind: K) -> bool {
    match kind {
        K::ASL | K::LSR | K::ROL | K::ROR | K::INC | K::DEC => true,
        _ => false,
    }
}

/// The new byte and flags of a read-modify-write operation on `v`.
pub open spec fn modified(kind: K, v: u8, p: u8) -> (u8, u8) {
    match kind {
        K::ASL => {
            let r = ((v * 2) % 256) as u8;
            (r, nz(with_flag(p, CARRY, v >= 0x80), r))
        },
        K::LSR => {
            let r = (v / 2) as u8;
            (r, nz(with_flag(p, CARRY, v % 2 == 1), r))
        },
        K::ROL => {
            let r = ((v * 2) % 256 + carry_in(p)) as u8;
            (r, nz(with_flag(p, CARRY, v >= 0x80), r))
        },
        K::ROR => {
            let r = (v / 2 + 128 * carry_in(p)) as u8;
            (r, nz(with_flag(p, CARRY, v % 2 == 1), r))
        },
        K::INC => (wrap8(v + 1), nz(p, wrap8(v + 1))),
        _ => (wrap8(v - 1), nz(p, wrap8(v - 1))),
    }
}

/// A read-modify-write operation: the byte written, whether a page was crossed, the state after.
pub open spec fn modify(s: CpuState, kind: K, mode: M) -> Result<(u8, bool, CpuState), BusError> {
    if mode == M::Accumulator {
        let (r, p) = modified(kind, s.a, s.p);
        Ok((r, false, CpuState { a: r, p, ..s }))
    } else {
        match resolve(s, mode) {
            Err(e) => Err(e),
            Ok((addr, cross, t)) => match read_at(t, addr) {
                Err(e) => Err(e),
                Ok((v, u)) => match write_at(
                    CpuState { p: modified(kind, v, u.p).1, ..u },
                    addr,
                    modified(kind, v, u.p).0,
                ) {
                    Ok(w) => Ok((modified(kind, v, u.p).0, cross, w)),
                    Err(e) => Err(e),
                },
            },
        }
    }
}

/// The register a store operation writes.
pub open spec fn stored(kind: K, s: CpuState) -> u8 {
    match kind {
        K::STX => s.x,
        K::STY => s.y,
        _ => s.a,
    }
}

/// Registers after an operation that takes no operand and touches no memory.
pub open spec fn implied(kind: K, s: CpuState) -> CpuState {
    match kind {
        K::CLC => CpuState { p: with_flag(s.p, CARRY, false), ..s },
        K::CLD => CpuState { p: with_flag(s.p, DECIMAL, false), ..s },
        K::CLI => CpuState { p: with_flag(s.p, INTERRUPT_DISABLE, false), ..s },
        K::CLV => CpuState { p: with_flag(s.p, OVERFLOW, false), ..s },
        K::SEC => CpuState { p: with_flag(s.p, CARRY, true), ..s },
        K::SED => CpuState { p: with_flag(s.p, DECIMAL, true), ..s },
        K::SEI => CpuState { p: with_flag(s.p, INTERRUPT_DISABLE, true), ..s },
        K::TAX => CpuState { x: s.a, p: nz(s.p, s.a), ..s },
        K::TAY => CpuState { y: s.a, p: nz(s.p, s.a), ..s },
        K::TSX => CpuState { x: s.sp, p: nz(s.p, s.sp), ..s },
        K::TXA => CpuState { a: s.x, p: nz(s.p, s.x), ..s },
        K::TXS => CpuState { sp: s.x, ..s },
        K::TYA => CpuState { a: s.y, p: nz(s.p, s.y), ..s },
        K::INX => CpuState { x: wrap8(s.x + 1), p: nz(s.p, wrap8(s.x + 1)), ..s },
        K::INY => CpuState { y: wrap8(s.y + 1), p: nz(s.p, wrap8(s.y + 1)), ..s },
        K::DEX => CpuState { x: wrap8(s.x - 1), p: nz(s.p, wrap8(s.x - 1)), ..s },
        K::DEY => CpuState { y: wrap8(s.y - 1), p: nz(s.p, wrap8(s.y - 1)), ..s },
        _ => s,
    }
}

/// Whether a branch of this kind is taken under flags `p`.
pub open spec fn branch_taken(kind: K, p: u8) -> bool {
    match kind {
        K::BCC => !has_flag(p, CARRY),
        K::BCS => has_flag(p, CARRY),
        K::BEQ => has_flag(p, ZERO),
        K::BNE => !has_flag(p, ZERO),
        K::BMI => has_flag(p, NEGATIVE),
        K::BPL => !has_flag(p, NEGATIVE),
        K::BVS => has_flag(p, OVERFLOW),
        _ => !has_flag(p, OVERFLOW),
    }
}

/// `pc` moved by the signed 8-bit offset `offset`.
pub open spec fn relative(pc: u16, offset: u8) -> u16 {
    if offset < 0x80 {
        wrap16(pc + offset)
    } else {
        wrap16(pc + offset - 256)
    }
}

/// Pushes `v` at the stack pointer, which then moves down within the stack page.
pub open spec fn push(s: CpuState, v: u8) -> CpuState {
    CpuState {
        sp: wrap8(s.sp - 1),
        bus: BusView { ram: s.bus.ram.update(STACK + s.sp, v), ..s.bus },
        ..s
    }
}

/// Moves the stack pointer up within the stack page and reads the byte there.
pub open spec fn pop(s: CpuState) -> (u8, CpuState) {
    let sp = wrap8(s.sp + 1);
    (s.bus.ram[STACK + sp], CpuState { sp, ..s })
}

/// Pushes the high byte of `w`, then its low byte.
pub open spec fn push_word(s: CpuState, w: u16) -> CpuState {
    push(push(s, (w / 256) as u8), (w % 256) as u8)
}

/// Pops a low byte, then a high byte.
pub open spec fn pop_word(s: CpuState) -> (u16, CpuState) {
    let (lo, t) = pop(s);
    let (hi, u) = pop(t);
    ((hi * 256 + lo) as u16, u)
}

/// Status restored from a popped byte: break cleared, break2 set.
pub open spec fn restored(v: u8) -> u8 {
    with_flag(with_flag(v, BREAK, false), BREAK2, true)
}

/// Where an indirect jump reads the high byte of its target: the next address, except that
/// a pointer at the end of a page wraps to the start of that same page.
pub open spec fn indirect_high(ptr: u16) -> u16 {
    if ptr % 256 == 0xff {
        (ptr - 0xff) as u16
    } else {
        (ptr + 1) as u16
    }
}

/// A conditional branch: read the offset, and apply it if the condition holds.
pub open spec fn branch(s: CpuState, kind: K) -> Result<CpuState, BusError> {
    match fetch(s) {
        Err(e) => Err(e),
        Ok((offset, t)) => if branch_taken(kind, s.p) {
            Ok(CpuState { pc: relative(t.pc, offset), ..t })
        } else {
            Ok(t)
        },
    }
}

/// A jump to the operand word (`Absolute`), or to the address stored there (`Indirect`).
pub open spec fn jump(s: CpuState, mode: M) -> Result<CpuState, BusError> {
    match fetch_word(s) {
        Err(e) => Err(e),
        Ok((w, t)) => if mode == M::Absolute {
            Ok(CpuState { pc: w, ..t })
        } else {
            match read_at(t, w) {
                Err(e) => Err(e),
                Ok((lo, u)) => match read_at(u, indirect_high(w)) {
                    Err(e) => Err(e),
                    Ok((hi, v)) => Ok(CpuState { pc: (hi * 256 + lo) as u16, ..v }),
                },
            }
        },
    }
}

/// A subroutine call: push the address of the call's last byte, then jump.
pub open spec fn call(s: CpuState) -> Result<CpuState, BusError> {
    match fetch_word(s) {
        Err(e) => Err(e),
        Ok((w, t)) => Ok(CpuState { pc: w, ..push_word(t, wrap16(t.pc - 1)) }),
    }
}

/// The little-endian word stored at ROM address `a`.
pub open spec fn rom_word(b: BusView, a: u16) -> u16 {
    (rom_byte(b.prg, wrap16(a + 1)) * 256 + rom_byte(b.prg, a)) as u16
}

/// Whether an interrupt request is ignored: only a maskable one, while interrupts are disabled.
pub open spec fn masked(s: CpuState, request: Interrupt) -> bool {
    request.itype == InterruptType::IRQ && has_flag(s.p, INTERRUPT_DISABLE)
}

/// The interrupt entry sequence: push the program counter and a status copy with the break
/// bits of the interrupt's kind, disable interrupts, spend the acknowledgment cycles, and
/// load the program counter from the interrupt's vector.
pub open spec fn interrupt(s: CpuState, request: Interrupt) -> CpuState {
    if masked(s, request) {
        s
    } else {
        let t = push_word(s, s.pc);
        let u = push(t, with_flag(with_flag(s.p, BREAK, request.break_flag), BREAK2, true));
        let bus = bus_ticked(u.bus, request.cpu_cycles);
        CpuState {
            p: with_flag(s.p, INTERRUPT_DISABLE, true),
            bus,
            pc: rom_word(bus, request.vector_addr),
            ..u
        }
    }
}

/// One instruction with the program counter just past its opcode: whether resolving its
/// address crossed a page, and the state after.
pub open spec fn execute(s: CpuState, ins: Instruction) -> Result<(bool, CpuState), BusError> {
    let kind = ins.instruction_type;
    let mode = ins.memory_addressing_mode;
    if reads_operand(kind, mode) {
        match operand(s, mode) {
            Ok((m, cross, t)) => Ok((cross, apply_read(kind, t, m))),
            Err(e) => Err(e),
        }
    } else if is_modify(kind) {
        match modify(s, kind, mode) {
            Ok((_, cross, t)) => Ok((cross, t)),
            Err(e) => Err(e),
        }
    } else if is_transfer(kind) {
        transfer(s, kind, mode)
    } else {
        Ok((false, simple(s, kind)))
    }
}

/// Stores, jumps, branches and the increment-then-subtract operation.
pub open spec fn is_transfer(kind: K) -> bool {
    match kind {
        K::ISB | K::STA | K::STX | K::STY | K::BCC | K::BCS | K::BEQ | K::BNE | K::BMI | K::BPL
        | K::BVC | K::BVS | K::JMP | K::JSR => true,
        _ => false,
    }
}

/// A store, jump, branch or increment-then-subtract: whether a page was crossed, and the
/// state after.
pub open spec fn transfer(s: CpuState, kind: K, mode: M) -> Result<(bool, CpuState), BusError> {
    match kind {
        K::ISB => match modify(s, K::INC, mode) {
            Ok((r, cross, t)) => Ok((cross, apply_read(K::SBC, t, r))),
            Err(e) => Err(e),
        },
        K::STA | K::STX | K::STY => match resolve(s, mode) {
            Err(e) => Err(e),
            Ok((addr, cross, t)) => match write_at(t, addr, stored(kind, s)) {
                Ok(u) => Ok((cross, u)),
                Err(e) => Err(e),
            },
        },
        K::JMP => match jump(s, mode) {
            Ok(t) => Ok((false, t)),
            Err(e) => Err(e),
        },
        K::JSR => match call(s) {
            Ok(t) => Ok((false, t)),
            Err(e) => Err(e),
        },
        _ => match branch(s, kind) {
            Ok(t) => Ok((false, t)),
            Err(e) => Err(e),
        },
    }
}

/// The operations that cannot fail: stack transfers, returns, break, and the implied ones.
pub open spec fn simple(s: CpuState, kind: K) -> CpuState {
    match kind {
        K::PHA | K::PHP | K::PLA | K::PLP | K::RTS | K::RTI => stack_op(s, kind),
        K::BRK => interrupt(s, interrupt_spec(InterruptType::BRK)),
        _ => implied(kind, s),
    }
}

/// Pushes and pulls of registers, and returns.
pub open spec fn stack_op(s: CpuState, kind: K) -> CpuState {
    match kind {
        K::PHA => push(s, s.a),
        K::PHP => push(s, with_flag(s.p, BREAK, true)),
        K::PLA => CpuState { a: pop(s).0, p: nz(s.p, pop(s).0), ..pop(s).1 },
        K::PLP => CpuState { p: restored(pop(s).0), ..pop(s).1 },
        K::RTS => CpuState { pc: wrap16(pop_word(s).0 + 1), ..pop_word(s).1 },
        _ => {
            let (v, t) = pop(s);
            let (w, u) = pop_word(t);
            CpuState { p: restored(v), pc: w, ..u }
        },
    }
}

/// The state with the graphics unit's pending interrupt taken.
pub open spec fn polled(s: CpuState) -> CpuState {
    CpuState { bus: BusView { ppu: PpuView { nmi: None, ..s.bus.ppu }, ..s.bus }, ..s }
}

/// Cycles an instruction costs: its base cost, plus one if it is page-cross sensitive and
/// resolving its address crossed a page.
pub open spec fn cost(ins: Instruction, cross: bool) -> u8 {
    if ins.plus_cycle && cross {
        (ins.cycle + 1) as u8
    } else {
        ins.cycle
    }
}

/// One turn of the fetch-decode-execute loop: service a pending interrupt, fetch and decode,
/// stop at the halt opcode, execute, enter the break sequence if the break flag got set, and
/// advance the clock by the instruction's cost. Yields the instruction run, or `None` at the
/// halt opcode.
pub open spec fn step_spec(s: CpuState) -> Result<(Option<Instruction>, CpuState), BusError> {
    let s1 = match s.bus.ppu.nmi {
        Some(k) => interrupt(polled(s), interrupt_spec(k)),
        None => s,
    };
    match fetch(s1) {
        Err(e) => Err(e),
        Ok((op, s2)) => {
            let ins = instruction_spec(op);
            if ins.instruction_type == K::NotImplemented && op == OPCODE_EXIT {
                Ok((None, s2))
            } else {
                match execute(s2, ins) {
                    Err(e) => Err(e),
                    Ok((cross, s3)) => {
                        let s4 = if has_flag(s3.p, BREAK) {
                            interrupt(s3, interrupt_spec(InterruptType::BRK))
                        } else {
                            s3
                        };
                        Ok((Some(ins), CpuState { bus: bus_ticked(s4.bus, cost(ins, cross)), ..s4 }))
                    },
                }
            }
        },
    }
}

/// Up to `n` turns of the loop: whether the halt opcode was reached, and the state after.
pub open spec fn run_spec(s: CpuState, n: nat) -> Result<(bool, CpuState), BusError>
    decreases n,
{
    if n == 0 {
        Ok((false, s))
    } else {
        match step_spec(s) {
            Err(e) => Err(e),
            Ok((None, t)) => Ok((true, t)),
            Ok((Some(_), t)) => run_spec(t, (n - 1) as nat),
        }
    }
}

/// Popping right after a push yields the pushed byte and restores the stack pointer.
pub proof fn lemma_push_pop(s: CpuState, v: u8)
    requires
        bus_wf(s.bus),
    ensures
        pop(push(s, v)).0 == v,
        pop(push(s, v)).1.sp == s.sp,
{
}

/// Popping reads the cell just above the stack pointer, wherever the other pushes went.
proof fn lemma_pop_reads_above(s: CpuState)
    ensures
        pop(s).0 == s.bus.ram[STACK + wrap8(s.sp + 1)],
        pop(s).1 == (CpuState { sp: wrap8(s.sp + 1), ..s }),
{
}

/// Bytes pushed in sequence come back in reverse order.
#[verifier::rlimit(100)]
pub proof fn lemma_stack_reverse_order(s: CpuState, v1: u8, v2: u8, v3: u8, v4: u8)
    requires
        bus_wf(s.bus),
    ensures
        pop(push(push(push(push(s, v1), v2), v3), v4)).0 == v4,
        pop(pop(push(push(push(push(s, v1), v2), v3), v4)).1).0 == v3,
        pop(pop(pop(push(push(push(push(s, v1), v2), v3), v4)).1).1).0 == v2,
        pop(pop(pop(pop(push(push(push(push(s, v1), v2), v3), v4)).1).1).1).0 == v1,
        pop(pop(pop(pop(push(push(push(push(s, v1), v2), v3), v4)).1).1).1).1.sp == s.sp,
{
    let p1 = push(s, v1);
    let p2 = push(p1, v2);
    let p3 = push(p2, v3);
    let p4 = push(p3, v4);
    let ram = p4.bus.ram;
    let c0 = STACK + s.sp;
    let c1 = STACK + p1.sp;
    let c2 = STACK + p2.sp;
    let c3 = STACK + p3.sp;
    assert(c0 != c1 && c0 != c2 && c0 != c3 && c1 != c2 && c1 != c3 && c2 != c3);
    assert(ram[c0] == v1 && ram[c1] == v2 && ram[c2] == v3 && ram[c3] == v4);
    assert(wrap8(p4.sp + 1) == p3.sp);
    assert(wrap8(p3.sp + 1) == p2.sp);
    assert(wrap8(p2.sp + 1) == p1.sp);
    assert(wrap8(p1.sp + 1) == s.sp);
    lemma_pop_reads_above(p4);
    let t3 = pop(p4).1;
    lemma_pop_reads_above(t3);
    let t2 = pop(t3).1;
    lemma_pop_reads_above(t2);
    let t1 = pop(t2).1;
    lemma_pop_reads_above(t1);
}

/// A word pushed and then popped comes back unchanged, with the stack pointer restored.
pub proof fn lemma_push_pop_word(s: CpuState, w: u16)
    requires
        bus_wf(s.bus),
    ensures
        pop_word(push_word(s, w)).0 == w,
        pop_word(push_word(s, w)).1.sp == s.sp,
{
}

} // verus!
