//! The audio unit's frame sequencer and IRQ line.
//!
//! Waveform synthesis is out of scope; what is modelled is the 240 Hz frame
//! counter driven by CPU cycles: every `CYCLE_240HZ` cycles the sequencer
//! advances one step, and in the 4-step mode the final step raises the IRQ
//! line when the IRQ enable bit is set.

use vstd::prelude::*;

use crate::interrupts::Interrupts;
use crate::ram::Ram;

verus! {

/// CPU cycles between frame-sequencer steps (240 Hz at the NTSC clock).
pub const CYCLE_240HZ: u64 = 7457;

pub const APU_REGISTER_SIZE: usize = 0x18;

/// Step taken by the 4-step sequencer: 0, 1, 2, 3, then back to 0.
pub open spec fn mode0_next_step(s: u32) -> u32 {
    if s + 1 == 4 { 0 } else { (s + 1) as u32 }
}

/// The 4-step sequencer raises the IRQ exactly on the advance out of step 3.
pub open spec fn mode0_fires_irq(s: u32) -> bool {
    s + 1 == 4
}

/// Step taken by the 5-step sequencer: 0, 1, 2, 3, 4, then back to 0.
pub open spec fn mode1_next_step(s: u32) -> u32 {
    if s + 1 == 5 { 0 } else { (s + 1) as u32 }
}

/// How many IRQ assertions the 4-step sequencer makes over `k` advances
/// starting from step `s`.
pub open spec fn mode0_irq_count(s: u32, k: nat) -> nat
    decreases k,
{
    if k == 0 {
        0
    } else {
        (if mode0_fires_irq(s) { 1nat } else { 0nat })
            + mode0_irq_count(mode0_next_step(s), (k - 1) as nat)
    }
}

/// One full pass of the 4-step sequencer raises the IRQ exactly once,
/// wherever in the cycle it starts; the 5-step mode never raises it (its
/// advance, `update_mode1_sequence`, leaves the IRQ line unchanged).
pub proof fn lemma_mode0_irq_once_per_cycle()
    ensures
        forall|s: u32| s < 4 ==> #[trigger] mode0_irq_count(s, 4) == 1,
{
    assert forall|s: u32| s < 4 implies #[trigger] mode0_irq_count(s, 4) == 1 by {
        reveal_with_fuel(mode0_irq_count, 5);
        if s == 0 {
            assert(mode0_irq_count(0, 4) == 1);
        } else if s == 1 {
            assert(mode0_irq_count(1, 4) == 1);
        } else if s == 2 {
            assert(mode0_irq_count(2, 4) == 1);
        } else {
            assert(mode0_irq_count(3, 4) == 1);
        }
    }
}

/// The audio unit: a free-running cycle counter, the sequencer step, the
/// mode and IRQ-enable bits, and the raw register bytes.
pub struct Apu {
    pub cycle: u64,
    pub step: u32,
    pub register: Ram,
    pub is_sequencer_mode: bool,
    pub is_enable_irq: bool,
}

impl Apu {
    pub open spec fn wf(&self) -> bool {
        &&& self.register.wf()
        &&& self.register.size == APU_REGISTER_SIZE
        &&& self.cycle < CYCLE_240HZ
        &&& (self.is_sequencer_mode ==> self.step < 5)
        &&& (!self.is_sequencer_mode ==> self.step < 4)
    }

    /// Power-on state: counter and step at zero, 4-step mode, IRQ disabled.
    pub fn new() -> (r: Apu)
        ensures
            r.wf(),
            r.cycle == 0,
            r.step == 0,
            !r.is_sequencer_mode,
            !r.is_enable_irq,
            r.register.data@ == Seq::new(APU_REGISTER_SIZE as nat, |i: int| 0u8),
    {
        Apu {
            cycle: 0,
            step: 0,
            register: Ram::new(APU_REGISTER_SIZE),
            is_sequencer_mode: false,
            is_enable_irq: false,
        }
    }

    /// Bus read of the status register at 0x4015: returns the stored status
    /// byte and acknowledges the frame IRQ by deasserting the line.
    pub fn read(&self, interrupts: &mut Interrupts, addr: u16) -> (r: u8)
        requires
            self.wf(),
            addr == 0x4015,
        ensures
            r == self.register.data@[0x15],
            !final(interrupts).irq,
            final(interrupts).nmi == old(interrupts).nmi,
    {
        interrupts.deassert_irq();
        self.register.read(0x15)
    }

    /// Bus write into 0x4000..=0x4017: the byte is stored; a write to 0x4017
    /// additionally selects the sequencer mode (bit 7), sets the IRQ enable
    /// (bit 6 clear means enabled), and restarts the sequencer.
    pub fn write(&mut self, addr: u16, data: u8)
        requires
            old(self).wf(),
            0x4000 <= addr <= 0x4017,
        ensures
            final(self).wf(),
            final(self).register.data@ == old(self).register.data@.update(
                addr - 0x4000,
                data,
            ),
            addr == 0x4017 ==> {
                &&& final(self).is_sequencer_mode == (data & 0x80 != 0)
                &&& final(self).is_enable_irq == (data & 0x40 == 0)
                &&& final(self).step == 0
                &&& final(self).cycle == 0
            },
            addr != 0x4017 ==> {
                &&& final(self).is_sequencer_mode == old(self).is_sequencer_mode
                &&& final(self).is_enable_irq == old(self).is_enable_irq
                &&& final(self).step == old(self).step
                &&& final(self).cycle == old(self).cycle
            },
    {
        self.register.write(addr - 0x4000, data);
        if addr == 0x4017 {
            self.is_sequencer_mode = data & 0x80 != 0;
            self.is_enable_irq = data & 0x40 == 0;
            self.step = 0;
            self.cycle = 0;
        }
    }

    /// One advance of the 4-step sequencer. Raises the IRQ exactly on the
    /// wrap out of step 3, and only when the enable bit is set.
    fn update_mode0_sequence(&mut self, interrupts: &mut Interrupts)
        requires
            old(self).wf(),
            !old(self).is_sequencer_mode,
        ensures
            final(self).wf(),
            final(self).step == mode0_next_step(old(self).step),
            final(self).cycle == old(self).cycle,
            final(self).register == old(self).register,
            final(self).is_sequencer_mode == old(self).is_sequencer_mode,
            final(self).is_enable_irq == old(self).is_enable_irq,
            final(interrupts).irq == (old(interrupts).irq || (mode0_fires_irq(
                old(self).step,
            ) && old(self).is_enable_irq)),
            final(interrupts).nmi == old(interrupts).nmi,
    {
        self.update_envelope();
        if self.step % 2 > 0 {
            self.update_sweep_and_length_counter();
        }
        self.step = self.step + 1;
        if self.step == 4 {
            if self.is_enable_irq {
                interrupts.assert_irq();
            }
            self.step = 0;
        }
    }

    /// One advance of the 5-step sequencer. Never touches the IRQ line.
    fn update_mode1_sequence(&mut self, interrupts: &mut Interrupts)
        requires
            old(self).wf(),
            old(self).is_sequencer_mode,
        ensures
            final(self).wf(),
            final(self).step == mode1_next_step(old(self).step),
            final(self).cycle == old(self).cycle,
            final(self).register == old(self).register,
            final(self).is_sequencer_mode == old(self).is_sequencer_mode,
            final(self).is_enable_irq == old(self).is_enable_irq,
            *final(interrupts) == *old(interrupts),
    {
        if self.step % 2 == 0 {
            self.update_sweep_and_length_counter();
        }
        self.step = self.step + 1;
        if self.step == 5 {
            self.step = 0;
        } else {
            self.update_envelope();
        }
    }

    /// Envelope units are not synthesised in this core.
    fn update_envelope(&mut self)
        ensures
            *final(self) == *old(self),
    {
    }

    /// Sweep and length-counter units are not synthesised in this core.
    fn update_sweep_and_length_counter(&mut self)
        ensures
            *final(self) == *old(self),
    {
    }

    /// Advances the frame counter by `cycle` CPU cycles. When the 240 Hz
    /// divider is crossed the sequencer takes one step; otherwise nothing but
    /// the counter changes.
    pub fn run(&mut self, cycle: u64, interrupts: &mut Interrupts)
        requires
            old(self).wf(),
            cycle <= 1000,
        ensures
            final(self).wf(),
            final(self).register == old(self).register,
            final(self).is_sequencer_mode == old(self).is_sequencer_mode,
            final(self).is_enable_irq == old(self).is_enable_irq,
            final(interrupts).nmi == old(interrupts).nmi,
            old(self).cycle + cycle < CYCLE_240HZ ==> {
                &&& final(self).cycle == old(self).cycle + cycle
                &&& final(self).step == old(self).step
                &&& *final(interrupts) == *old(interrupts)
            },
            old(self).cycle + cycle >= CYCLE_240HZ ==> {
                &&& final(self).cycle == old(self).cycle + cycle - CYCLE_240HZ
                &&& (!old(self).is_sequencer_mode ==> final(self).step == mode0_next_step(
                    old(self).step,
                ) && final(interrupts).irq == (old(interrupts).irq || (mode0_fires_irq(
                    old(self).step,
                ) && old(self).is_enable_irq)))
                &&& (old(self).is_sequencer_mode ==> final(self).step == mode1_next_step(
                    old(self).step,
                ) && final(interrupts).irq == old(interrupts).irq)
            },
    {
        self.cycle = self.cycle + cycle;
        if self.cycle >= CYCLE_240HZ {
            self.cycle = self.cycle - CYCLE_240HZ;
            if self.is_sequencer_mode {
                self.update_mode1_sequence(interrupts);
            } else {
                self.update_mode0_sequence(interrupts);
            }
        }
    }
}

} // verus!
