//! The system: cartridge, CPU, PPU, APU, memories and interrupt lines wired
//! together, driven one CPU instruction at a time.

use vstd::prelude::*;

use crate::apu::Apu;
use crate::cassette::Cassette;
use crate::cpu::{
    cpu_plain_byte, fetch_window, run_rel, Bus, Cpu, EmuError, INTERRUPT, WRAM_SIZE,
};
use crate::optable::op_table_spec;
use crate::interrupts::Interrupts;
use crate::ppu::{ppu_dots, Image, Ppu, CHAR_RAM_SIZE, DOTS_PER_FRAME};
use crate::ram::Ram;
use crate::render::Render;

verus! {

/// Some bus state as the CPU left it witnesses that one instruction related
/// the old machine to the new CPU state (`run_rel`); the PPU and APU then
/// advanced from that bus state.
pub open spec fn cpu_stepped(c0: Cpu, b0: Bus, c1: Cpu, c: u64) -> bool {
    exists|bm: Bus| run_rel(c0, b0, c1, bm, Ok(c))
}

/// The whole console: the CPU, the bus it arbitrates (cartridge, work RAM,
/// PPU, APU, interrupt lines), the frame image under construction, and the
/// renderer's output grids.
pub struct Nes {
    pub cpu: Cpu,
    pub bus: Bus,
    pub image: Image,
    pub render: Render,
}

impl Nes {
    pub open spec fn wf(&self) -> bool {
        &&& self.bus.wf()
        &&& self.image.wf()
        &&& self.render.wf()
    }

    /// Wires a parsed cartridge into a console at power-on. The base mapper
    /// supports one or two 16-KiB program banks.
    pub fn new(cas: Cassette) -> (r: Nes)
        requires
            cas.wf(),
            cas.prog_size == 0x4000 || cas.prog_size == 0x8000,
            cas.char_size == 0 || cas.char_size >= CHAR_RAM_SIZE,
        ensures
            r.wf(),
            r.bus.cas == cas,
            r.cpu.index == 0 && r.cpu.cycle == 0,
            !r.bus.interrupts.irq && !r.bus.interrupts.nmi,
            r.bus.ppu.line == 0 && r.bus.ppu.cycle == 0,
    {
        let ppu = Ppu::new(&cas);
        let cpu = Cpu::new(&cas);
        Nes {
            cpu,
            bus: Bus {
                cas,
                wram: Ram::new(WRAM_SIZE),
                ppu,
                apu: Apu::new(),
                interrupts: Interrupts::new(),
            },
            image: Image::new(),
            render: Render::new(),
        }
    }

    /// Resets the CPU; the program counter is loaded from the reset vector.
    pub fn reset(&mut self)
        requires
            old(self).wf(),
        ensures
            final(self).wf(),
            final(self).bus == old(self).bus,
            final(self).cpu.index == 0 && final(self).cpu.cycle == 0,
            final(self).cpu.reg.sp == 0xFD && final(self).cpu.reg.p == 0x24,
            final(self).cpu.reg.a == 0 && final(self).cpu.reg.x == 0 && final(self).cpu.reg.y == 0,
            final(self).cpu.reg.pc == crate::cpu::prog_word(old(self).bus.cas, 0xFFFC),
    {
        self.cpu.reset(&mut self.bus);
    }

    /// One scheduler iteration: one CPU instruction (`run_rel`), then the
    /// PPU advances three dots per cycle and the APU one count per cycle;
    /// when the PPU completes the frame the renderer transforms the image.
    /// Returns the cycle count and whether a frame was completed. With no
    /// interrupt pending and the program counter in plain memory, the step
    /// succeeds exactly when the opcode byte has a table entry.
    #[verifier::rlimit(100)]
    pub fn step(&mut self) -> (r: Result<(u64, bool), EmuError>)
        requires
            old(self).wf(),
            old(self).cpu.cycle <= 0xFFFF_FFFF_FFFF_0000u64,
            old(self).cpu.index <= 0xFFFF_FFFF_FFFF_0000u64,
        ensures
            final(self).wf(),
            r matches Ok((c, frame)) ==> 2 <= c <= 10 && final(self).cpu.cycle == old(self).cpu.cycle + c && final(self).cpu.index == old(self).cpu.index + 1,
            // the executed instruction relates the old machine to the new
            // CPU state and the bus as the CPU left it
            r matches Ok((c, frame)) ==> cpu_stepped(
                old(self).cpu,
                old(self).bus,
                final(self).cpu,
                c,
            ),
            r matches Err(e) ==> run_rel(
                old(self).cpu,
                old(self).bus,
                final(self).cpu,
                final(self).bus,
                Err(e),
            ),
            (!old(self).bus.interrupts.nmi && !(old(self).bus.interrupts.irq && old(self).cpu.reg.p & INTERRUPT == 0) && fetch_window(old(self).cpu.reg.pc)) ==> ({
                let opc = cpu_plain_byte(old(self).bus, old(self).cpu.reg.pc as int);
                &&& (op_table_spec(opc) is Some ==> r is Ok)
                &&& (op_table_spec(opc) is None ==> r == Err::<(u64, bool), EmuError>(
                    EmuError::UnknownOpcode { opcode: opc, pc: old(self).cpu.reg.pc },
                ))
            }),
            // the PPU advances three dots per CPU cycle, each completed
            // frame accounting for a frame's worth of them
            r matches Ok((c, frame)) ==> ppu_dots(final(self).bus.ppu) + (if frame {
                DOTS_PER_FRAME as int
            } else {
                0int
            }) == ppu_dots(old(self).bus.ppu) + 3 * c,
            // a frame completes exactly when the step crosses out of the
            // last scanline
            r matches Ok((c, frame)) ==> (frame <==> (old(self).bus.ppu.line == 261 && old(
                self,
            ).bus.ppu.cycle + 3 * c >= 341)),
    {
        let stepped = self.cpu.run(&mut self.bus);
        let ghost bm = self.bus;
        let cycle = match stepped {
            Ok(c) => c,
            Err(e) => {
                return Err(e);
            },
        };
        proof {
            assert(run_rel(old(self).cpu, old(self).bus, self.cpu, bm, Ok(cycle)));
        }
        let frame = self.bus.ppu.run(cycle, &mut self.image, &mut self.bus.interrupts);
        self.bus.apu.run(cycle, &mut self.bus.interrupts);
        if frame {
            self.render.render(&self.image);
        }
        proof {
            assert(cpu_stepped(old(self).cpu, old(self).bus, self.cpu, cycle)) by {
                assert(run_rel(old(self).cpu, old(self).bus, self.cpu, bm, Ok(cycle)));
            }
        }
        Ok((cycle, frame))
    }
}

} // verus!
