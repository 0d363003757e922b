//! Interrupt vectors and entry sequencing.
//!
//! The vectors are real and reset entry is real: enough to bring the CPU up at
//! its reset vector and run code. NMI and IRQ entry jump through the correct
//! vector and charge 7 cycles, but do not yet push PC/P to the stack.
use vstd::prelude::*;
use super::{Cpu, NmiEdge, Status};
use crate::bus::{Bus, word_read};

verus! {

/// `$FFFA`-`$FFFB`: non-maskable interrupt. Modelled but unused in Clinker v1.
pub const NMI_VECTOR: u16 = 0xFFFA;

/// `$FFFC`-`$FFFD`: reset.
pub const RESET_VECTOR: u16 = 0xFFFC;

/// `$FFFE`-`$FFFF`: maskable interrupt (shared with `BRK`). Carries the four
/// 6551 ACIAs and the WD1793 FDC completion line.
pub const IRQ_VECTOR: u16 = 0xFFFE;

/// The three ways the core leaves the instruction stream.
#[derive(Debug, Clone, Copy, PartialEq, Eq, Structural)]
pub enum Interrupt {
    Reset,
    Nmi,
    Irq,
}

/// The address of the vector through which `k` is entered.
pub open spec fn vector_of(k: Interrupt) -> u16 {
    match k {
        Interrupt::Reset => RESET_VECTOR,
        Interrupt::Nmi => NMI_VECTOR,
        Interrupt::Irq => IRQ_VECTOR,
    }
}

/// Reset entry with `target` read from the reset vector: `SP = $FD`, `I = 1`,
/// `PC = target`, the NMI edge detector rebased on the current line level,
/// 7 cycles.
pub open spec fn reset_entry(c: Cpu, target: u16) -> Cpu {
    Cpu {
        s: 0xFD,
        status: Status { interrupt_disable: true, ..c.status },
        pc: target,
        nmi_edge: NmiEdge::after(c.nmi),
        cycles: (c.cycles + 7) as u64,
        ..c
    }
}

/// NMI entry with `target` read from the NMI vector: `PC = target`, 7 cycles.
pub open spec fn nmi_entry(c: Cpu, target: u16) -> Cpu {
    Cpu { pc: target, cycles: (c.cycles + 7) as u64, ..c }
}

/// IRQ entry with `target` read from the IRQ vector: `I = 1`, `PC = target`,
/// 7 cycles.
pub open spec fn irq_entry(c: Cpu, target: u16) -> Cpu {
    Cpu {
        status: Status { interrupt_disable: true, ..c.status },
        pc: target,
        cycles: (c.cycles + 7) as u64,
        ..c
    }
}

/// Entry into `k` with `target` read from its vector.
pub open spec fn interrupt_entry(k: Interrupt, c: Cpu, target: u16) -> Cpu {
    match k {
        Interrupt::Reset => reset_entry(c, target),
        Interrupt::Nmi => nmi_entry(c, target),
        Interrupt::Irq => irq_entry(c, target),
    }
}

impl Cpu {
    /// Reset entry: `SP = $FD`, `I = 1`, `PC = [$FFFC]`, 7 cycles. Reset also
    /// establishes the NMI edge-detector baseline.
    pub(super) fn service_reset<B: Bus>(&mut self, bus: &mut B) -> (cycles: u8)
        requires
            old(self).cycles + 7 <= u64::MAX,
        ensures
            cycles == 7,
            *final(self) == reset_entry(*old(self), final(self).pc),
            B::records_history() ==> word_read(old(bus).history(), final(bus).history(), RESET_VECTOR, final(self).pc),
    {
        self.s = 0xFD;
        self.status.interrupt_disable = true;
        self.pc = bus.read_u16(RESET_VECTOR);
        self.nmi_edge = NmiEdge::sample(self.nmi);
        self.cycles += 7;
        7
    }

    /// NMI entry: `PC = [$FFFA]`, 7 cycles. PC and P are not pushed yet.
    pub(super) fn service_nmi<B: Bus>(&mut self, bus: &mut B) -> (cycles: u8)
        requires
            old(self).cycles + 7 <= u64::MAX,
        ensures
            cycles == 7,
            *final(self) == nmi_entry(*old(self), final(self).pc),
            B::records_history() ==> word_read(old(bus).history(), final(bus).history(), NMI_VECTOR, final(self).pc),
    {
        self.pc = bus.read_u16(NMI_VECTOR);
        self.cycles += 7;
        7
    }

    /// IRQ entry: `I = 1`, `PC = [$FFFE]`, 7 cycles. PC and P are not pushed
    /// yet.
    pub(super) fn service_irq<B: Bus>(&mut self, bus: &mut B) -> (cycles: u8)
        requires
            old(self).cycles + 7 <= u64::MAX,
        ensures
            cycles == 7,
            *final(self) == irq_entry(*old(self), final(self).pc),
            B::records_history() ==> word_read(old(bus).history(), final(bus).history(), IRQ_VECTOR, final(self).pc),
    {
        self.status.interrupt_disable = true;
        self.pc = bus.read_u16(IRQ_VECTOR);
        self.cycles += 7;
        7
    }
}

/// What the reset sequence does, field by field: `SP = $FD`, `PC` the word
/// read from the reset vector, `I` set and every other flag as it was, the
/// NMI edge detector rebased on the current line level, 7 cycles, and every
/// other register, line and counter unchanged.
pub proof fn lemma_reset_effect(c: Cpu, target: u16)
    requires
        c.cycles + 7 <= u64::MAX,
    ensures
        reset_entry(c, target).s == 0xFD,
        reset_entry(c, target).pc == target,
        reset_entry(c, target).status == (Status { interrupt_disable: true, ..c.status }),
        reset_entry(c, target).cycles == c.cycles + 7,
        reset_entry(c, target).nmi_edge.seen() == c.nmi,
        reset_entry(c, target).a == c.a,
        reset_entry(c, target).x == c.x,
        reset_entry(c, target).y == c.y,
        reset_entry(c, target).irq == c.irq,
        reset_entry(c, target).nmi == c.nmi,
        reset_entry(c, target).reset_pending == c.reset_pending,
        reset_entry(c, target).brk_trapped == c.brk_trapped,
        reset_entry(c, target).unknown_opcodes == c.unknown_opcodes,
{
    super::lemma_nmi_edge_after(c.nmi);
}

} // verus!
