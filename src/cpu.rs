pub mod instructions;
pub mod interrupt;
pub mod processor_status;
pub mod semantics;

use vstd::prelude::*;

verus! {

use crate::bus::{bus_wf, BusError, MemoryBus};
use self::instructions::{
    get_instruction_from_opcode,
    is_memory_mode,
    is_value_mode,
    mode_fits,
    well_formed,
    Instruction,
    InstructionType as K,
    MemoryAdressingMode as M,
};
use self::interrupt::{Interrupt, InterruptType, RESET_VECTOR};
use self::processor_status::{
    ProcessorStatus,
    BREAK,
    CARRY,
    INTERRUPT_DISABLE,
};
use self::semantics::{
    add_with_carry,
    apply_read,
    branch,
    call,
    jump,
    compared,
    cost,
    execute,
    implied,
    interrupt,
    is_modify,
    is_transfer,
    simple,
    stack_op,
    transfer,
    modified,
    modify,
    nz,
    reads_operand,
    rom_word,
    run_spec,
    step_spec,
    stored,
    OPCODE_EXIT,
    fetch,
    fetch_word,
    operand,
    pop,
    pop_word,
    push,
    push_word,
    read_at,
    resolve,
    write_at,
    zero_page_pointer,
    CpuState,
    STACK,
};

/// The processor: registers, status flags, and the bus it owns.
#[derive(Clone, Debug)]
pub struct CPU {
    pub program_counter: u16,
    pub stack_pointer: u8,
    pub a: u8,
    pub x: u8,
    pub y: u8,
    pub processor_status: ProcessorStatus,
    pub bus: MemoryBus,
}

impl CPU {
    /// Registers and bus as plain values.
    pub open spec fn state(&self) -> CpuState {
        CpuState {
            pc: self.program_counter,
            sp: self.stack_pointer,
            a: self.a,
            x: self.x,
            y: self.y,
            p: self.processor_status.bits,
            bus: self.bus@,
        }
    }

    pub open spec fn wf(&self) -> bool {
        bus_wf(self.bus@)
    }

    /// A processor at power-on: registers cleared, interrupts disabled, the stack pointer at
    /// 0xfd, and the program counter loaded from the reset vector.
    pub fn new(bus: MemoryBus) -> (r: Self)
        requires
            bus_wf(bus@),
        ensures
            r.wf(),
            r.state() == (CpuState {
                pc: rom_word(bus@, RESET_VECTOR),
                sp: 0xfd,
                a: 0,
                x: 0,
                y: 0,
                p: INTERRUPT_DISABLE,
                bus: bus@,
            }),
    {
        let mut cpu = Self::new_with_state(
            bus,
            0,
            0xfd,
            0,
            0,
            0,
            ProcessorStatus { bits: INTERRUPT_DISABLE },
        );
        cpu.reset_cpu();
        cpu
    }

    /// Clears the registers, disables interrupts, sets the stack pointer to 0xfd and loads
    /// the program counter from the reset vector.
    pub fn reset_cpu(&mut self)
        requires
            old(self).wf(),
        ensures
            final(self).wf(),
            final(self).state() == (CpuState {
                pc: rom_word(old(self).bus@, RESET_VECTOR),
                sp: 0xfd,
                a: 0,
                x: 0,
                y: 0,
                p: INTERRUPT_DISABLE,
                bus: old(self).bus@,
            }),
    {
        self.processor_status = ProcessorStatus { bits: INTERRUPT_DISABLE };
        self.a = 0;
        self.x = 0;
        self.y = 0;
        self.stack_pointer = 0xfd;
        let lo = self.bus.read_from_rom(RESET_VECTOR);
        let hi = self.bus.read_from_rom(RESET_VECTOR + 1);
        self.program_counter = hi as u16 * 256 + lo as u16;
    }

    pub fn new_with_state(
        rom: MemoryBus,
        program_counter: u16,
        stack_pointer: u8,
        a: u8,
        x: u8,
        y: u8,
        processor_status: ProcessorStatus,
    ) -> (r: Self)
        ensures
            r.state() == (CpuState {
                pc: program_counter,
                sp: stack_pointer,
                a,
                x,
                y,
                p: processor_status.bits,
                bus: rom@,
            }),
    {
        CPU { program_counter, stack_pointer, a, x, y, processor_status, bus: rom }
    }

    /// Reads `addr` through the bus.
    fn load(&mut self, addr: u16) -> (r: Result<u8, BusError>)
        requires
            old(self).wf(),
        ensures
            final(self).wf(),
            match read_at(old(self).state(), addr) {
                Ok((v, t)) => r == Ok::<u8, BusError>(v) && final(self).state() == t,
                Err(e) => r == Err::<u8, BusError>(e),
            },
    {
        self.bus.read_byte(addr)
    }

    /// Writes `v` to `addr` through the bus.
    fn store(&mut self, addr: u16, v: u8) -> (r: Result<(), BusError>)
        requires
            old(self).wf(),
        ensures
            final(self).wf(),
            match write_at(old(self).state(), addr, v) {
                Ok(t) => r == Ok::<(), BusError>(()) && final(self).state() == t,
                Err(e) => r == Err::<(), BusError>(e),
            },
    {
        self.bus.write_byte(addr, v)
    }

    /// The byte at the program counter, which then moves on by one.
    pub fn read_next_byte(&mut self) -> (r: Result<u8, BusError>)
        requires
            old(self).wf(),
        ensures
            final(self).wf(),
            match fetch(old(self).state()) {
                Ok((v, t)) => r == Ok::<u8, BusError>(v) && final(self).state() == t,
                Err(e) => r == Err::<u8, BusError>(e),
            },
    {
        reveal(fetch);
        let byte = self.load(self.program_counter)?;
        self.program_counter = self.program_counter.wrapping_add(1);
        Ok(byte)
    }

    /// The little-endian word at the program counter, which then moves on by two.
    pub fn read_next_word(&mut self) -> (r: Result<u16, BusError>)
        requires
            old(self).wf(),
        ensures
            final(self).wf(),
            match fetch_word(old(self).state()) {
                Ok((v, t)) => r == Ok::<u16, BusError>(v) && final(self).state() == t,
                Err(e) => r == Err::<u16, BusError>(e),
            },
    {
        reveal(fetch_word);
        let lo = self.read_next_byte()?;
        let hi = self.read_next_byte()?;
        Ok(hi as u16 * 256 + lo as u16)
    }

    fn zero_page_pointer(&mut self, ptr: u8) -> (r: Result<u16, BusError>)
        requires
            old(self).wf(),
        ensures
            final(self).wf(),
            match zero_page_pointer(old(self).state(), ptr) {
                Ok((v, t)) => r == Ok::<u16, BusError>(v) && final(self).state() == t,
                Err(e) => r == Err::<u16, BusError>(e),
            },
    {
        reveal(zero_page_pointer);
        let lo = self.load(ptr as u16)?;
        let hi = self.load(ptr.wrapping_add(1) as u16)?;
        Ok(hi as u16 * 256 + lo as u16)
    }

    fn absolute_address(&mut self) -> (r: Result<(u16, bool), BusError>)
        requires
            old(self).wf(),
        ensures
            final(self).wf(),
            match resolve(old(self).state(), M::Absolute) {
                Ok((addr, cross, t)) => r == Ok::<(u16, bool), BusError>((addr, cross))
                    && final(self).state() == t,
                Err(e) => r == Err::<(u16, bool), BusError>(e),
            },
    {
        Ok((self.read_next_word()?, false))
    }

    #[verifier::rlimit(40)]
    fn absolute_x_address(&mut self) -> (r: Result<(u16, bool), BusError>)
        requires
            old(self).wf(),
        ensures
            final(self).wf(),
            match resolve(old(self).state(), M::AbsoluteX) {
                Ok((addr, cross, t)) => r == Ok::<(u16, bool), BusError>((addr, cross))
                    && final(self).state() == t,
                Err(e) => r == Err::<(u16, bool), BusError>(e),
            },
    {
        let index = self.x;
        let base = self.read_next_word()?;
        let addr = base.wrapping_add(index as u16);
        Ok((addr, addr / 256 != base / 256))
    }

    #[verifier::rlimit(40)]
    fn absolute_y_address(&mut self) -> (r: Result<(u16, bool), BusError>)
        requires
            old(self).wf(),
        ensures
            final(self).wf(),
            match resolve(old(self).state(), M::AbsoluteY) {
                Ok((addr, cross, t)) => r == Ok::<(u16, bool), BusError>((addr, cross))
                    && final(self).state() == t,
                Err(e) => r == Err::<(u16, bool), BusError>(e),
            },
    {
        let index = self.y;
        let base = self.read_next_word()?;
        let addr = base.wrapping_add(index as u16);
        Ok((addr, addr / 256 != base / 256))
    }

    fn zero_page_address(&mut self) -> (r: Result<(u16, bool), BusError>)
        requires
            old(self).wf(),
        ensures
            final(self).wf(),
            match resolve(old(self).state(), M::ZeroPage) {
                Ok((addr, cross, t)) => r == Ok::<(u16, bool), BusError>((addr, cross))
                    && final(self).state() == t,
                Err(e) => r == Err::<(u16, bool), BusError>(e),
            },
    {
        Ok((self.read_next_byte()? as u16, false))
    }

    #[verifier::rlimit(40)]
    fn zero_page_x_address(&mut self) -> (r: Result<(u16, bool), BusError>)
        requires
            old(self).wf(),
        ensures
            final(self).wf(),
            match resolve(old(self).state(), M::ZeroPageX) {
                Ok((addr, cross, t)) => r == Ok::<(u16, bool), BusError>((addr, cross))
                    && final(self).state() == t,
                Err(e) => r == Err::<(u16, bool), BusError>(e),
            },
    {
        let index = self.x;
        let base = self.read_next_byte()?;
        Ok((base.wrapping_add(index) as u16, false))
    }

    #[verifier::rlimit(40)]
    fn zero_page_y_address(&mut self) -> (r: Result<(u16, bool), BusError>)
        requires
            old(self).wf(),
        ensures
            final(self).wf(),
            match resolve(old(self).state(), M::ZeroPageY) {
                Ok((addr, cross, t)) => r == Ok::<(u16, bool), BusError>((addr, cross))
                    && final(self).state() == t,
                Err(e) => r == Err::<(u16, bool), BusError>(e),
            },
    {
        let index = self.y;
        let base = self.read_next_byte()?;
        Ok((base.wrapping_add(index) as u16, false))
    }

    #[verifier::rlimit(40)]
    fn indirect_x_address(&mut self) -> (r: Result<(u16, bool), BusError>)
        requires
            old(self).wf(),
        ensures
            final(self).wf(),
            match resolve(old(self).state(), M::IndirectX) {
                Ok((addr, cross, t)) => r == Ok::<(u16, bool), BusError>((addr, cross))
                    && final(self).state() == t,
                Err(e) => r == Err::<(u16, bool), BusError>(e),
            },
    {
        let index = self.x;
        let base = self.read_next_byte()?;
        let ptr = base.wrapping_add(index);
        Ok((self.zero_page_pointer(ptr)?, false))
    }

    #[verifier::rlimit(40)]
    fn indirect_y_address(&mut self) -> (r: Result<(u16, bool), BusError>)
        requires
            old(self).wf(),
        ensures
            final(self).wf(),
            match resolve(old(self).state(), M::IndirectY) {
                Ok((addr, cross, t)) => r == Ok::<(u16, bool), BusError>((addr, cross))
                    && final(self).state() == t,
                Err(e) => r == Err::<(u16, bool), BusError>(e),
            },
    {
        let index = self.y;
        let base = self.read_next_byte()?;
        let deref_base = self.zero_page_pointer(base)?;
        let addr = deref_base.wrapping_add(index as u16);
        Ok((addr, addr / 256 != deref_base / 256))
    }

    /// The effective address of a memory mode, and whether resolving it crossed a page.
    fn get_address(&mut self, mode: M) -> (r: Result<(u16, bool), BusError>)
        requires
            old(self).wf(),
            is_memory_mode(mode),
        ensures
            final(self).wf(),
            match resolve(old(self).state(), mode) {
                Ok((addr, cross, t)) => r == Ok::<(u16, bool), BusError>((addr, cross))
                    && final(self).state() == t,
                Err(e) => r == Err::<(u16, bool), BusError>(e),
            },
    {
        match mode {
            M::Absolute => self.absolute_address(),
            M::AbsoluteX => self.absolute_x_address(),
            M::AbsoluteY => self.absolute_y_address(),
            M::ZeroPage => self.zero_page_address(),
            M::ZeroPageX => self.zero_page_x_address(),
            M::ZeroPageY => self.zero_page_y_address(),
            M::IndirectX => self.indirect_x_address(),
            _ => self.indirect_y_address(),
        }
    }

    /// The operand of a value mode, and whether resolving its address crossed a page.
    fn read_operand(&mut self, mode: M) -> (r: Result<(u8, bool), BusError>)
        requires
            old(self).wf(),
            is_value_mode(mode),
        ensures
            final(self).wf(),
            match operand(old(self).state(), mode) {
                Ok((v, cross, t)) => r == Ok::<(u8, bool), BusError>((v, cross))
                    && final(self).state() == t,
                Err(e) => r == Err::<(u8, bool), BusError>(e),
            },
    {
        match mode {
            M::Accumulator => Ok((self.a, false)),
            M::Immediate => Ok((self.read_next_byte()?, false)),
            _ => {
                let (addr, cross) = self.get_address(mode)?;
                Ok((self.load(addr)?, cross))
            },
        }
    }

    fn set_negative_and_zero_process_status(&mut self, v: u8)
        ensures
            final(self).state() == (CpuState { p: nz(old(self).state().p, v), ..old(self).state() }),
    {
        self.processor_status.set_zero(v == 0);
        self.processor_status.set_negative(ProcessorStatus::is_negative(v));
    }

    /// Adds `m` and the carry to the accumulator.
    fn add(&mut self, m: u8)
        ensures
            final(self).state() == (CpuState {
                a: add_with_carry(old(self).a, m, old(self).state().p).0,
                p: add_with_carry(old(self).a, m, old(self).state().p).1,
                ..old(self).state()
            }),
    {
        let a = self.a;
        let carry: u16 = if self.processor_status.bits & CARRY != 0 {
            1
        } else {
            0
        };
        let sum: u16 = a as u16 + m as u16 + carry;
        let r = (sum % 256) as u8;
        let overflow = (a >= 0x80) == (m >= 0x80) && (r >= 0x80) != (a >= 0x80);
        self.processor_status.set_carry(sum > 0xff);
        self.processor_status.set_overflow(overflow);
        self.a = r;
        self.set_negative_and_zero_process_status(r);
    }

    fn compare(&mut self, register: u8, m: u8)
        ensures
            final(self).state() == (CpuState {
                p: compared(register, m, old(self).state().p),
                ..old(self).state()
            }),
    {
        self.processor_status.set_carry(register >= m);
        self.set_negative_and_zero_process_status(register.wrapping_sub(m))
    }

    /// Carries out an operand-reading operation on operand `m`.
    fn apply_read(&mut self, kind: K, m: u8)
        ensures
            final(self).state() == apply_read(kind, old(self).state(), m),
    {
        match kind {
            K::ADC => self.add(m),
            K::SBC => self.add(255 - m),
            K::AND => {
                self.a = self.a & m;
                self.set_negative_and_zero_process_status(self.a);
            },
            K::ORA => {
                self.a = self.a | m;
                self.set_negative_and_zero_process_status(self.a);
            },
            K::EOR => {
                self.a = self.a ^ m;
                self.set_negative_and_zero_process_status(self.a);
            },
            K::CMP => self.compare(self.a, m),
            K::CPX => self.compare(self.x, m),
            K::CPY => self.compare(self.y, m),
            K::LDA => {
                self.a = m;
                self.set_negative_and_zero_process_status(m);
            },
            K::LDX => {
                self.x = m;
                self.set_negative_and_zero_process_status(m);
            },
            K::LDY => {
                self.y = m;
                self.set_negative_and_zero_process_status(m);
            },
            K::BIT => {
                self.processor_status.set_zero(m & self.a == 0);
                self.processor_status.set_negative(m >= 0x80);
                self.processor_status.set_overflow(m & 0x40 != 0);
            },
            _ => {},
        }
    }

    /// A read-modify-write operation on the accumulator or a memory cell; yields the byte
    /// written and whether resolving the address crossed a page.
    fn modify(&mut self, kind: K, mode: M) -> (r: Result<(u8, bool), BusError>)
        requires
            old(self).wf(),
            is_memory_mode(mode) || mode == M::Accumulator,
        ensures
            final(self).wf(),
            match modify(old(self).state(), kind, mode) {
                Ok((v, cross, t)) => r == Ok::<(u8, bool), BusError>((v, cross))
                    && final(self).state() == t,
                Err(e) => r == Err::<(u8, bool), BusError>(e),
            },
    {
        if mode == M::Accumulator {
            let (v, p) = modified_value(kind, self.a, self.processor_status.bits);
            self.a = v;
            self.processor_status.bits = p;
            Ok((v, false))
        } else {
            let (addr, cross) = self.get_address(mode)?;
            let data = self.load(addr)?;
            let (v, p) = modified_value(kind, data, self.processor_status.bits);
            self.processor_status.bits = p;
            self.store(addr, v)?;
            Ok((v, cross))
        }
    }

    /// A store of the register that `kind` names.
    fn store_register(&mut self, kind: K, mode: M) -> (r: Result<bool, BusError>)
        requires
            old(self).wf(),
            is_memory_mode(mode),
        ensures
            final(self).wf(),
            match resolve(old(self).state(), mode) {
                Ok((addr, cross, t)) => match write_at(t, addr, stored(kind, old(self).state())) {
                    Ok(u) => r == Ok::<bool, BusError>(cross) && final(self).state() == u,
                    Err(e) => r == Err::<bool, BusError>(e),
                },
                Err(e) => r == Err::<bool, BusError>(e),
            },
    {
        let v = match kind {
            K::STX => self.x,
            K::STY => self.y,
            _ => self.a,
        };
        let (addr, cross) = self.get_address(mode)?;
        self.store(addr, v)?;
        Ok(cross)
    }

    /// A conditional branch: reads the offset, and applies it if the condition holds.
    fn branch(&mut self, kind: K) -> (r: Result<(), BusError>)
        requires
            old(self).wf(),
        ensures
            final(self).wf(),
            match branch(old(self).state(), kind) {
                Ok(t) => r == Ok::<(), BusError>(()) && final(self).state() == t,
                Err(e) => r == Err::<(), BusError>(e),
            },
    {
        let p = self.processor_status.bits;
        let taken = match kind {
            K::BCC => p & CARRY == 0,
            K::BCS => p & CARRY != 0,
            K::BEQ => p & 0b0000_0010 != 0,
            K::BNE => p & 0b0000_0010 == 0,
            K::BMI => p & 0b1000_0000 != 0,
            K::BPL => p & 0b1000_0000 == 0,
            K::BVS => p & 0b0100_0000 != 0,
            _ => p & 0b0100_0000 == 0,
        };
        let offset = self.read_next_byte()?;
        if taken {
            let pc = self.program_counter;
            self.program_counter = if offset < 0x80 {
                pc.wrapping_add(offset as u16)
            } else {
                pc.wrapping_add(offset as u16 + 0xff00)
            };
        }
        Ok(())
    }

    /// A jump, absolute or through a pointer; a pointer at the end of a page takes its high
    /// byte from the start of that same page.
    fn jmp(&mut self, mode: M) -> (r: Result<(), BusError>)
        requires
            old(self).wf(),
        ensures
            final(self).wf(),
            match jump(old(self).state(), mode) {
                Ok(t) => r == Ok::<(), BusError>(()) && final(self).state() == t,
                Err(e) => r == Err::<(), BusError>(e),
            },
    {
        let ptr = self.read_next_word()?;
        if mode == M::Absolute {
            self.program_counter = ptr;
        } else {
            let lo = self.load(ptr)?;
            let high_addr = if ptr % 256 == 0xff {
                ptr - 0xff
            } else {
                ptr + 1
            };
            let hi = self.load(high_addr)?;
            self.program_counter = hi as u16 * 256 + lo as u16;
        }
        Ok(())
    }

    /// A subroutine call: pushes the address of the call's last byte, then jumps.
    fn jsr(&mut self) -> (r: Result<(), BusError>)
        requires
            old(self).wf(),
        ensures
            final(self).wf(),
            match call(old(self).state()) {
                Ok(t) => r == Ok::<(), BusError>(()) && final(self).state() == t,
                Err(e) => r == Err::<(), BusError>(e),
            },
    {
        let addr = self.read_next_word()?;
        let return_point = self.program_counter.wrapping_sub(1);
        self.push_word(return_point);
        self.program_counter = addr;
        Ok(())
    }

    /// The interrupt entry sequence, unless the request is maskable and interrupts are
    /// disabled.
    fn interrupt(&mut self, request: Interrupt)
        requires
            old(self).wf(),
            request.cpu_cycles <= 85,
            0x8000 <= request.vector_addr < 0xffff,
        ensures
            final(self).wf(),
            final(self).state() == interrupt(old(self).state(), request),
    {
        let p = self.processor_status.bits;
        if request.itype == InterruptType::IRQ && p & INTERRUPT_DISABLE != 0 {
            return ;
        }
        let pc = self.program_counter;
        self.push_word(pc);
        let mut flag = ProcessorStatus { bits: p };
        flag.set_break(request.break_flag);
        flag.set_break2(true);
        self.push(flag.bits);
        self.processor_status = ProcessorStatus { bits: p };
        self.processor_status.set_interrupt_disable(true);
        self.bus.tick(request.cpu_cycles);
        let lo = self.bus.read_from_rom(request.vector_addr);
        let hi = self.bus.read_from_rom(request.vector_addr + 1);
        self.program_counter = hi as u16 * 256 + lo as u16;
    }

    /// An operation that takes no operand and touches no memory.
    fn implied(&mut self, kind: K)
        ensures
            final(self).state() == implied(kind, old(self).state()),
    {
        match kind {
            K::CLC => self.processor_status.set_carry(false),
            K::CLD => self.processor_status.set_decimal(false),
            K::CLI => self.processor_status.set_interrupt_disable(false),
            K::CLV => self.processor_status.set_overflow(false),
            K::SEC => self.processor_status.set_carry(true),
            K::SED => self.processor_status.set_decimal(true),
            K::SEI => self.processor_status.set_interrupt_disable(true),
            K::TAX => {
                self.x = self.a;
                self.set_negative_and_zero_process_status(self.x);
            },
            K::TAY => {
                self.y = self.a;
                self.set_negative_and_zero_process_status(self.y);
            },
            K::TSX => {
                self.x = self.stack_pointer;
                self.set_negative_and_zero_process_status(self.x);
            },
            K::TXA => {
                self.a = self.x;
                self.set_negative_and_zero_process_status(self.a);
            },
            K::TXS => {
                self.stack_pointer = self.x;
            },
            K::TYA => {
                self.a = self.y;
                self.set_negative_and_zero_process_status(self.a);
            },
            K::INX => {
                self.x = self.x.wrapping_add(1);
                self.set_negative_and_zero_process_status(self.x);
            },
            K::INY => {
                self.y = self.y.wrapping_add(1);
                self.set_negative_and_zero_process_status(self.y);
            },
            K::DEX => {
                self.x = self.x.wrapping_sub(1);
                self.set_negative_and_zero_process_status(self.x);
            },
            K::DEY => {
                self.y = self.y.wrapping_sub(1);
                self.set_negative_and_zero_process_status(self.y);
            },
            _ => {},
        }
    }

    /// Runs one decoded instruction, the program counter just past its opcode; yields whether
    /// resolving its address crossed a page.
    fn execute(&mut self, ins: Instruction) -> (r: Result<bool, BusError>)
        requires
            old(self).wf(),
            well_formed(ins),
        ensures
            final(self).wf(),
            match execute(old(self).state(), ins) {
                Ok((cross, t)) => r == Ok::<bool, BusError>(cross) && final(self).state() == t,
                Err(e) => r == Err::<bool, BusError>(e),
            },
    {
        let kind = ins.instruction_type;
        let mode = ins.memory_addressing_mode;
        if takes_operand(kind, mode) {
            let (m, cross) = self.read_operand(mode)?;
            self.apply_read(kind, m);
            return Ok(cross);
        }
        if modifies_in_place(kind) {
            let (_, cross) = self.modify(kind, mode)?;
            return Ok(cross);
        }
        if is_transfer_kind(kind) {
            return self.transfer(kind, mode);
        }
        self.simple(kind);
        Ok(false)
    }

    /// A store, jump, branch or increment-then-subtract.
    fn transfer(&mut self, kind: K, mode: M) -> (r: Result<bool, BusError>)
        requires
            old(self).wf(),
            is_transfer(kind),
            mode_fits(kind, mode),
        ensures
            final(self).wf(),
            match transfer(old(self).state(), kind, mode) {
                Ok((cross, t)) => r == Ok::<bool, BusError>(cross) && final(self).state() == t,
                Err(e) => r == Err::<bool, BusError>(e),
            },
    {
        match kind {
            K::ISB => {
                let (v, cross) = self.modify(K::INC, mode)?;
                self.apply_read(K::SBC, v);
                Ok(cross)
            },
            K::STA | K::STX | K::STY => self.store_register(kind, mode),
            K::JMP => {
                self.jmp(mode)?;
                Ok(false)
            },
            K::JSR => {
                self.jsr()?;
                Ok(false)
            },
            _ => {
                self.branch(kind)?;
                Ok(false)
            },
        }
    }

    /// Pushes and pulls of registers, and returns.
    fn stack_op(&mut self, kind: K)
        requires
            old(self).wf(),
        ensures
            final(self).wf(),
            final(self).state() == stack_op(old(self).state(), kind),
    {
        match kind {
            K::PHA => self.push(self.a),
            K::PHP => {
                let mut flag = self.processor_status;
                flag.set_break(true);
                self.push(flag.bits);
            },
            K::PLA => {
                let v = self.pop();
                self.a = v;
                self.set_negative_and_zero_process_status(v);
            },
            K::PLP => {
                let v = self.pop();
                self.processor_status = ProcessorStatus { bits: v };
                self.processor_status.set_break(false);
                self.processor_status.set_break2(true);
            },
            K::RTS => {
                let w = self.pop_word();
                self.program_counter = w.wrapping_add(1);
            },
            _ => {
                let v = self.pop();
                self.processor_status = ProcessorStatus { bits: v };
                self.processor_status.set_break(false);
                self.processor_status.set_break2(true);
                self.program_counter = self.pop_word();
            },
        }
    }

    /// A stack transfer, return, break, or implied operation.
    fn simple(&mut self, kind: K)
        requires
            old(self).wf(),
        ensures
            final(self).wf(),
            final(self).state() == simple(old(self).state(), kind),
    {
        match kind {
            K::PHA | K::PHP | K::PLA | K::PLP | K::RTS | K::RTI => self.stack_op(kind),
            K::BRK => self.interrupt(Interrupt::of(InterruptType::BRK)),
            _ => self.implied(kind),
        }
    }

    /// One turn of the fetch-decode-execute loop: services a pending interrupt, fetches and
    /// decodes an opcode, and, unless it is the halt opcode, executes it, enters the break
    /// sequence if the break flag got set, and advances the clock by the instruction's cost.
    /// Yields the instruction that ran, or `None` at the halt opcode.
    pub fn step(&mut self) -> (r: Result<Option<Instruction>, BusError>)
        requires
            old(self).wf(),
        ensures
            final(self).wf(),
            match step_spec(old(self).state()) {
                Ok((ins, t)) => r == Ok::<Option<Instruction>, BusError>(ins)
                    && final(self).state() == t,
                Err(e) => r == Err::<Option<Instruction>, BusError>(e),
            },
    {
        match self.bus.poll_nmi_status() {
            Some(k) => self.interrupt(Interrupt::of(k)),
            None => {},
        }
        let op = self.read_next_byte()?;
        let ins = get_instruction_from_opcode(op as usize);
        if ins.instruction_type == K::NotImplemented && op == OPCODE_EXIT {
            return Ok(None);
        }
        let cross = self.execute(ins)?;
        let cycles = if ins.plus_cycle && cross {
            ins.cycle + 1
        } else {
            ins.cycle
        };
        if self.processor_status.bits & BREAK != 0 {
            self.interrupt(Interrupt::of(InterruptType::BRK));
        }
        self.bus.tick(cycles);
        Ok(Some(ins))
    }

    /// Runs up to `max_steps` instructions; yields whether the halt opcode was reached.
    pub fn run(&mut self, max_steps: u64) -> (r: Result<bool, BusError>)
        requires
            old(self).wf(),
        ensures
            final(self).wf(),
            match run_spec(old(self).state(), max_steps as nat) {
                Ok((halted, t)) => r == Ok::<bool, BusError>(halted) && final(self).state() == t,
                Err(e) => r == Err::<bool, BusError>(e),
            },
    {
        let mut left = max_steps;
        while left > 0
            invariant
                self.wf(),
                run_spec(old(self).state(), max_steps as nat) == run_spec(self.state(), left as nat),
            decreases left,
        {
            match self.step()? {
                None => {
                    return Ok(true);
                },
                Some(_) => {},
            }
            left = left - 1;
        }
        Ok(false)
    }

    /// Pushes `byte` at the stack pointer, which then moves down within the stack page.
    pub fn push(&mut self, byte: u8)
        requires
            old(self).wf(),
        ensures
            final(self).wf(),
            final(self).state() == push(old(self).state(), byte),
    {
        let _ = self.bus.write_byte(STACK + self.stack_pointer as u16, byte);
        self.stack_pointer = self.stack_pointer.wrapping_sub(1);
    }

    /// Pushes the high byte of `word`, then its low byte.
    pub fn push_word(&mut self, word: u16)
        requires
            old(self).wf(),
        ensures
            final(self).wf(),
            final(self).state() == push_word(old(self).state(), word),
    {
        self.push((word / 256) as u8);
        self.push((word % 256) as u8);
    }

    /// Moves the stack pointer up within the stack page and reads the byte there.
    pub fn pop(&mut self) -> (r: u8)
        requires
            old(self).wf(),
        ensures
            final(self).wf(),
            (r, final(self).state()) == pop(old(self).state()),
    {
        self.stack_pointer = self.stack_pointer.wrapping_add(1);
        let addr = STACK + self.stack_pointer as u16;
        match self.bus.read_byte(addr) {
            Ok(v) => v,
            Err(_) => 0,
        }
    }

    /// Pops a low byte, then a high byte.
    pub fn pop_word(&mut self) -> (r: u16)
        requires
            old(self).wf(),
        ensures
            final(self).wf(),
            (r, final(self).state()) == pop_word(old(self).state()),
    {
        let lo = self.pop();
        let hi = self.pop();
        hi as u16 * 256 + lo as u16
    }
}

/// The new byte and flags of a read-modify-write operation on `v` under flags `p`.
fn modified_value(kind: K, v: u8, p: u8) -> (r: (u8, u8))
    ensures
        r == modified(kind, v, p),
{
    let mut st = ProcessorStatus { bits: p };
    let carry: u8 = if p & CARRY != 0 {
        1
    } else {
        0
    };
    let r: u8 = match kind {
        K::ASL => {
            st.set_carry(v >= 0x80);
            ((v as u16 * 2) % 256) as u8
        },
        K::LSR => {
            st.set_carry(v % 2 == 1);
            v / 2
        },
        K::ROL => {
            st.set_carry(v >= 0x80);
            ((v as u16 * 2) % 256) as u8 + carry
        },
        K::ROR => {
            st.set_carry(v % 2 == 1);
            v / 2 + 128 * carry
        },
        K::INC => v.wrapping_add(1),
        _ => v.wrapping_sub(1),
    };
    st.set_zero(r == 0);
    st.set_negative(r >= 0x80);
    (r, st.bits)
}

fn takes_operand(kind: K, mode: M) -> (r: bool)
    ensures
        r == reads_operand(kind, mode),
{
    match kind {
        K::ADC | K::AND | K::BIT | K::CMP | K::CPX | K::CPY | K::EOR | K::LDA | K::LDX | K::LDY
        | K::ORA | K::SBC => true,
        K::NOP => mode != M::Implied,
        _ => false,
    }
}

fn is_transfer_kind(kind: K) -> (r: bool)
    ensures
        r == is_transfer(kind),
{
    match kind {
        K::ISB | K::STA | K::STX | K::STY | K::BCC | K::BCS | K::BEQ | K::BNE | K::BMI | K::BPL
        | K::BVC | K::BVS | K::JMP | K::JSR => true,
        _ => false,
    }
}

fn modifies_in_place(kind: K) -> (r: bool)
    ensures
        r == is_modify(kind),
{
    match kind {
        K::ASL | K::LSR | K::ROL | K::ROR | K::INC | K::DEC => true,
        _ => false,
    }
}

} // verus!
