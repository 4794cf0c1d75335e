//! The two level-sensitive interrupt lines shared by the CPU, PPU and APU.

use vstd::prelude::*;

verus! {

/// Two flags: IRQ (maskable) and NMI (non-maskable). Each is asserted and
/// deasserted by whichever unit owns the condition; the CPU polls both at the
/// head of every step and acknowledges by deasserting.
pub struct Interrupts {
    pub irq: bool,
    pub nmi: bool,
}

impl Interrupts {
    /// Both lines start deasserted.
    pub fn new() -> (r: Interrupts)
        ensures
            !r.irq,
            !r.nmi,
    {
        Interrupts { irq: false, nmi: false }
    }

    pub fn get_irq_assert(&self) -> (r: bool)
        ensures
            r == self.irq,
    {
        self.irq
    }

    pub fn get_nmi_assert(&self) -> (r: bool)
        ensures
            r == self.nmi,
    {
        self.nmi
    }

    pub fn assert_irq(&mut self)
        ensures
            final(self).irq,
            final(self).nmi == old(self).nmi,
    {
        self.irq = true;
    }

    pub fn deassert_irq(&mut self)
        ensures
            !final(self).irq,
            final(self).nmi == old(self).nmi,
    {
        self.irq = false;
    }

    pub fn assert_nmi(&mut self)
        ensures
            final(self).nmi,
            final(self).irq == old(self).irq,
    {
        self.nmi = true;
    }

    pub fn deassert_nmi(&mut self)
        ensures
            !final(self).nmi,
            final(self).irq == old(self).irq,
    {
        self.nmi = false;
    }
}

} // verus!
