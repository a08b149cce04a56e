use vstd::prelude::*;

verus! {

pub const RESET_VECTOR: u16 = 0xfffc;
pub const RESET_VECTOR_END: u16 = 0xfffd;

pub const NMI_VECTOR: u16 = 0xfffa;
pub const NMI_VECTOR_END: u16 = 0xfffb;

pub const IRQ_BRK_VECTOR: u16 = 0xfffe;
pub const IRQ_BRK_VECTOR_END: u16 = 0xffff;

/// The kind of an interrupt request.
#[derive(Clone, Copy, Debug, PartialEq, Eq, Structural)]
pub enum InterruptType {
    NMI,
    IRQ,
    BRK,
}

/// What servicing an interrupt of one kind involves.
#[derive(Clone, Copy, Debug, PartialEq, Eq, Structural)]
pub struct Interrupt {
    pub itype: InterruptType,
    /// Where the handler's address is stored.
    pub vector_addr: u16,
    /// Whether the pushed status copy has the break bit set.
    pub break_flag: bool,
    /// Bus cycles that the acknowledgment takes.
    pub cpu_cycles: u8,
}

/// The fixed description of each interrupt kind.
pub open spec fn interrupt_spec(itype: InterruptType) -> Interrupt {
    match itype {
        InterruptType::NMI => Interrupt {
            itype,
            vector_addr: NMI_VECTOR,
            break_flag: false,
            cpu_cycles: 2,
        },
        InterruptType::IRQ => Interrupt {
            itype,
            vector_addr: IRQ_BRK_VECTOR,
            break_flag: false,
            cpu_cycles: 2,
        },
        InterruptType::BRK => Interrupt {
            itype,
            vector_addr: IRQ_BRK_VECTOR,
            break_flag: true,
            cpu_cycles: 1,
        },
    }
}

impl Interrupt {
    /// The description of interrupts of kind `itype`.
    pub fn of(itype: InterruptType) -> (r: Interrupt)
        ensures
            r == interrupt_spec(itype),
    {
        match itype {
            InterruptType::NMI => Interrupt {
                itype,
                vector_addr: NMI_VECTOR,
                break_flag: false,
                cpu_cycles: 2,
            },
            InterruptType::IRQ => Interrupt {
                itype,
                vector_addr: IRQ_BRK_VECTOR,
                break_flag: false,
                cpu_cycles: 2,
            },
            InterruptType::BRK => Interrupt {
                itype,
                vector_addr: IRQ_BRK_VECTOR,
                break_flag: true,
                cpu_cycles: 1,
            },
        }
    }
}

} // verus!
