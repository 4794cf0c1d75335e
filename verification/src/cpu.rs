//! The 6502 CPU: register file, bus arbitration, instruction fetch, decode
//! and execution, interrupt entry, and OAM DMA.

use vstd::prelude::*;

use crate::apu::Apu;
use crate::cassette::Cassette;
use crate::interrupts::Interrupts;
use crate::optable::{op_info, op_table_spec, AddrModes, OpCodes, OpInfo};
use crate::ppu::{
    spec_read_status, spec_vram_read, spec_write_scroll, spec_write_vram_addr,
    vram_data_written, Ppu, SPRITE_RAM_SIZE,
};
use crate::ram::Ram;

verus! {

pub const CARRY: u8 = 0x01;
pub const ZERO: u8 = 0x02;
pub const INTERRUPT: u8 = 0x04;
pub const DECIMAL: u8 = 0x08;
pub const BREAK: u8 = 0x10;
pub const RESERVED: u8 = 0x20;
pub const OVERFLOW: u8 = 0x40;
pub const NEGATIVE: u8 = 0x80;

pub const WRAM_SIZE: usize = 0x0800;

/// A fatal condition in the core: an opcode byte with no table entry, with
/// the address it was fetched from.
#[derive(Debug, Clone, Copy, PartialEq, Eq, Structural)]
pub enum EmuError {
    UnknownOpcode { opcode: u8, pc: u16 },
}

// ---------------------------------------------------------------------------
// Bus
// ---------------------------------------------------------------------------

/// Everything the CPU can reach through a bus access: work RAM, the PPU and
/// APU registers, the interrupt lines, and the cartridge ROM.
pub struct Bus {
    pub cas: Cassette,
    pub wram: Ram,
    pub ppu: Ppu,
    pub apu: Apu,
    pub interrupts: Interrupts,
}

impl Bus {
    pub open spec fn wf(&self) -> bool {
        &&& self.cas.wf()
        &&& (self.cas.prog_size == 0x4000 || self.cas.prog_size == 0x8000)
        &&& self.wram.wf()
        &&& self.wram.size == WRAM_SIZE
        &&& self.ppu.wf()
        &&& self.apu.wf()
    }
}

/// The program-ROM byte the CPU sees at `addr` in 0x8000..=0xFFFF: a 16-KiB
/// cartridge mirrors its single bank into both halves.
pub open spec fn prog_byte(cas: Cassette, addr: int) -> u8 {
    if addr < 0xC000 {
        cas.prog_rom@[addr - 0x8000]
    } else if cas.prog_size <= 0x4000 {
        cas.prog_rom@[addr - 0xC000]
    } else {
        cas.prog_rom@[addr - 0x8000]
    }
}

/// The 16-bit little-endian program-ROM word at `addr`.
pub open spec fn prog_word(cas: Cassette, addr: int) -> int {
    prog_byte(cas, addr) + 256 * prog_byte(cas, addr + 1)
}

/// Addresses whose reads are free of side effects and fixed by the machine
/// state: work RAM (with its mirrors) and program ROM.
pub open spec fn plain_addr(addr: int) -> bool {
    0 <= addr < 0x2000 || 0x8000 <= addr < 0x10000
}

/// The byte a CPU read returns at a side-effect-free address: mirrored work
/// RAM below 0x2000, program ROM from 0x8000 up.
pub open spec fn cpu_plain_byte(b: Bus, addr: int) -> u8 {
    if addr < 0x2000 {
        b.wram.data@[addr % 0x800]
    } else {
        prog_byte(b.cas, addr)
    }
}

/// The 16-bit little-endian word at a side-effect-free address.
pub open spec fn cpu_plain_word(b: Bus, addr: int) -> int {
    cpu_plain_byte(b, addr) + 256 * cpu_plain_byte(b, addr + 1)
}

/// CPU bus traffic never moves the PPU's timing state: scanline, dot
/// counter and background row survive every register access and DMA.
pub open spec fn ppu_timing_kept(b0: Bus, b1: Bus) -> bool {
    &&& b1.ppu.line == b0.ppu.line
    &&& b1.ppu.cycle == b0.ppu.cycle
    &&& b1.ppu.background_index == b0.ppu.background_index
}

// ---------------------------------------------------------------------------
// Controller port
// ---------------------------------------------------------------------------

/// One controller port: the eight button states, the read cursor, and the
/// strobe latch.
pub struct KeyPadRegister {
    pub a: bool,
    pub b: bool,
    pub start: bool,
    pub select: bool,
    pub up: bool,
    pub down: bool,
    pub left: bool,
    pub right: bool,
    pub addr: u16,
    pub io_reg: u8,
    pub wait: bool,
}

/// Button `i` of the fixed read order A, B, Start, Select, Up, Down, Left,
/// Right.
pub open spec fn keypad_button(k: KeyPadRegister, i: int) -> bool {
    if i == 0 {
        k.a
    } else if i == 1 {
        k.b
    } else if i == 2 {
        k.start
    } else if i == 3 {
        k.select
    } else if i == 4 {
        k.up
    } else if i == 5 {
        k.down
    } else if i == 6 {
        k.left
    } else {
        k.right
    }
}

impl KeyPadRegister {
    /// All buttons up, cursor at the first button, strobe idle.
    pub fn new() -> (r: KeyPadRegister)
        ensures
            !r.a && !r.b && !r.start && !r.select && !r.up && !r.down && !r.left
                && !r.right,
            r.addr == 0,
            r.io_reg == 0,
            !r.wait,
    {
        KeyPadRegister {
            a: false,
            b: false,
            start: false,
            select: false,
            up: false,
            down: false,
            left: false,
            right: false,
            addr: 0,
            io_reg: 0,
            wait: false,
        }
    }

    /// Returns the next button in the fixed order, advancing the cursor;
    /// reads past the eighth return zero until the state is re-latched.
    pub fn read(&mut self) -> (r: u8)
        ensures
            old(self).addr < 8 ==> r == (if keypad_button(*old(self), old(self).addr as int) {
                1u8
            } else {
                0u8
            }) && *final(self) == (KeyPadRegister {
                addr: (old(self).addr + 1) as u16,
                ..*old(self)
            }),
            old(self).addr >= 8 ==> r == 0 && *final(self) == *old(self),
    {
        if self.addr >= 8 {
            return 0;
        }
        let pad_val: u8 = if self.addr == 0 {
            if self.a { 1 } else { 0 }
        } else if self.addr == 1 {
            if self.b { 1 } else { 0 }
        } else if self.addr == 2 {
            if self.start { 1 } else { 0 }
        } else if self.addr == 3 {
            if self.select { 1 } else { 0 }
        } else if self.addr == 4 {
            if self.up { 1 } else { 0 }
        } else if self.addr == 5 {
            if self.down { 1 } else { 0 }
        } else if self.addr == 6 {
            if self.left { 1 } else { 0 }
        } else {
            if self.right { 1 } else { 0 }
        };
        self.addr = self.addr + 1;
        pad_val
    }

    /// Strobe: writing bit 0 high then low latches the buttons and resets
    /// the read cursor.
    pub fn write(&mut self, data: u8)
        ensures
            old(self).io_reg == 0 && data & 0x01 == 1 ==> *final(self) == (KeyPadRegister {
                io_reg: 1u8,
                ..*old(self)
            }),
            old(self).io_reg == 1 && data & 0x01 == 0 ==> *final(self) == (KeyPadRegister {
                addr: 0u16,
                io_reg: 0u8,
                ..*old(self)
            }),
            !(old(self).io_reg == 0 && data & 0x01 == 1) && !(old(self).io_reg == 1 && data
                & 0x01 == 0) ==> *final(self) == *old(self),
    {
        if self.io_reg == 0 && data & 0x01 == 1 {
            self.io_reg = 1;
        } else if self.io_reg == 1 && data & 0x01 == 0 {
            self.addr = 0;
            self.io_reg = 0;
        }
    }
}

// ---------------------------------------------------------------------------
// Mapper
// ---------------------------------------------------------------------------

/// The cartridge mapper id and its current bank selection.
pub struct Mapper {
    pub mapper: u8,
    pub bank: u8,
}

impl Mapper {
    pub fn new(mapper: u8, bank: u8) -> (r: Mapper)
        ensures
            r.mapper == mapper,
            r.bank == bank,
    {
        Mapper { mapper, bank }
    }

    pub fn get_mapper(&self) -> (r: u8)
        ensures
            r == self.mapper,
    {
        self.mapper
    }

    pub fn set_bank(&mut self, bank: u8)
        ensures
            *final(self) == (Mapper { bank, ..*old(self) }),
    {
        self.bank = bank;
    }

    pub fn get_bank(&self) -> (r: u8)
        ensures
            r == self.bank,
    {
        self.bank
    }

    /// The character-memory address selected by the current bank.
    pub fn get_char_ram_addr(&self, addr: u16) -> (r: u16)
        requires
            addr < 0x2000,
            self.bank < 8,
        ensures
            r == addr + self.bank * 0x2000,
    {
        addr + (self.bank as u16) * 0x2000
    }
}

// ---------------------------------------------------------------------------
// Register file
// ---------------------------------------------------------------------------

/// The 6502 register file. The stack pointer holds the low byte; the stack
/// lives in page 0x0100, so pushes and pulls wrap within it by construction.
pub struct Register {
    pub a: u8,
    pub x: u8,
    pub y: u8,
    pub sp: u8,
    pub pc: u16,
    pub p: u8,
}

impl Register {
    pub fn new() -> (r: Register)
        ensures
            r.a == 0 && r.x == 0 && r.y == 0,
            r.sp == 0xFD,
            r.pc == 0xC000,
            r.p == 0x24,
    {
        Register { a: 0, x: 0, y: 0, sp: 0xFD, pc: 0xC000, p: 0x24 }
    }

    /// Power-on register state: A=X=Y=0, SP=0xFD, P=0x24.
    pub fn reset(&mut self)
        ensures
            final(self).a == 0 && final(self).x == 0 && final(self).y == 0,
            final(self).sp == 0xFD,
            final(self).pc == 0xC000,
            final(self).p == 0x24,
    {
        self.a = 0;
        self.x = 0;
        self.y = 0;
        self.sp = 0xFD;
        self.pc = 0xC000;
        self.p = 0x24;
    }
}

// ---------------------------------------------------------------------------
// Flag and ALU semantics
// ---------------------------------------------------------------------------

/// Status byte after the Zero and Negative flags are refreshed from
/// `result`: bit 7 copies the result's bit 7, bit 1 is set exactly when the
/// result is zero, all other bits keep their values.
pub open spec fn flags_zn(p: u8, result: u8) -> u8 {
    let p1 = if result & 0x80 != 0 {
        p | 0x80
    } else {
        p & 0x7F
    };
    if result == 0 {
        p1 | 0x02
    } else {
        p1 & 0xFD
    }
}

/// The Zero and Negative bits of `p` describe `v`.
pub open spec fn zn_agree(p: u8, v: u8) -> bool {
    &&& (p & ZERO != 0 <==> v == 0)
    &&& (p & NEGATIVE != 0 <==> v & 0x80 != 0)
}

/// Refreshing the flags from a result makes Zero hold exactly of a zero
/// result and Negative exactly of bit 7, and leaves the other six bits of
/// the status byte unchanged.
pub broadcast proof fn lemma_zn_flags(p: u8, result: u8)
    by (bit_vector)
    ensures
        zn_agree(#[trigger] flags_zn(p, result), result),
        flags_zn(p, result) & 0x7D == p & 0x7D,
{
}

/// ADC: result and status from accumulator, operand and incoming status.
/// Carry is unsigned overflow; Overflow is signed overflow; Zero and
/// Negative follow the 8-bit result. Decimal mode is ignored.
pub open spec fn adc_spec(a: u8, d: u8, p: u8) -> (u8, u8) {
    let result: u16 = (a as u16 + d as u16 + (if p & CARRY != 0 {
        1u16
    } else {
        0u16
    })) as u16;
    let r8: u8 = (result & 0xFF) as u8;
    let p1 = if result > 0xFF {
        p | CARRY
    } else {
        p & 0xFE
    };
    let p2 = if (d ^ r8) & 0x80 != 0 && (a ^ r8) & 0x80 != 0 {
        p1 | OVERFLOW
    } else {
        p1 & 0xBF
    };
    (r8, flags_zn(p2, r8))
}

/// SBC: Carry set means no borrow; Overflow is signed overflow of the
/// subtraction — set exactly when the operands' signs differ and the
/// result's sign differs from the accumulator's.
pub open spec fn sbc_spec(a: u8, d: u8, p: u8) -> (u8, u8) {
    let borrow: u16 = if p & CARRY != 0 {
        0u16
    } else {
        1u16
    };
    let result: u16 = (a as u16).wrapping_sub(d as u16).wrapping_sub(borrow);
    let r8: u8 = (result & 0xFF) as u8;
    let p1 = if a as u16 >= d as u16 + borrow {
        p | CARRY
    } else {
        p & 0xFE
    };
    let p2 = if (a ^ d) & 0x80 != 0 && (a ^ r8) & 0x80 != 0 {
        p1 | OVERFLOW
    } else {
        p1 & 0xBF
    };
    (r8, flags_zn(p2, r8))
}

/// Compare: Carry iff register >= operand, Zero on equality, Negative from
/// the 8-bit difference.
pub open spec fn cmp_spec(reg: u8, d: u8, p: u8) -> u8 {
    let diff: u8 = (reg as u16).wrapping_sub(d as u16) as u8;
    let p1 = if reg >= d {
        p | CARRY
    } else {
        p & 0xFE
    };
    flags_zn(p1, diff)
}

/// ASL: shift left; Carry takes the bit shifted out.
pub open spec fn asl_spec(d: u8, p: u8) -> (u8, u8) {
    let r8: u8 = ((d as u16) << 1u16 & 0xFF) as u8;
    let p1 = if d & 0x80 != 0 {
        p | CARRY
    } else {
        p & 0xFE
    };
    (r8, flags_zn(p1, r8))
}

/// LSR: shift right; Carry takes the bit shifted out; Negative clears.
pub open spec fn lsr_spec(d: u8, p: u8) -> (u8, u8) {
    let r8: u8 = d >> 1u8;
    let p1 = if d & 0x01 != 0 {
        p | CARRY
    } else {
        p & 0xFE
    };
    (r8, flags_zn(p1, r8))
}

/// ROL: rotate left through Carry.
pub open spec fn rol_spec(d: u8, p: u8) -> (u8, u8) {
    let shifted: u8 = ((d as u16) << 1u16 & 0xFF) as u8;
    let r8: u8 = if p & CARRY != 0 {
        shifted | 0x01
    } else {
        shifted & 0xFE
    };
    let p1 = if d & 0x80 != 0 {
        p | CARRY
    } else {
        p & 0xFE
    };
    (r8, flags_zn(p1, r8))
}

/// ROR: rotate right through Carry.
pub open spec fn ror_spec(d: u8, p: u8) -> (u8, u8) {
    let shifted: u8 = d >> 1u8;
    let r8: u8 = if p & CARRY != 0 {
        shifted | 0x80
    } else {
        shifted & 0x7F
    };
    let p1 = if d & 0x01 != 0 {
        p | CARRY
    } else {
        p & 0xFE
    };
    (r8, flags_zn(p1, r8))
}

/// BIT: operand bit 6 to Overflow, bit 7 to Negative, Zero from
/// operand AND accumulator.
pub open spec fn bit_spec(d: u8, a: u8, p: u8) -> u8 {
    let p1 = if d & 0x40 != 0 {
        p | OVERFLOW
    } else {
        p & 0xBF
    };
    let p2 = if d & 0x80 != 0 {
        p1 | NEGATIVE
    } else {
        p1 & 0x7F
    };
    if d & a == 0 {
        p2 | ZERO
    } else {
        p2 & 0xFD
    }
}

/// Status byte produced by PLP and RTI from the pulled byte: bits 4 (Break)
/// keeps its pre-pull value, bit 5 (Reserved) is forced to 1, every other
/// bit comes from the pulled byte.
pub open spec fn plp_spec(pulled: u8, p_before: u8) -> u8 {
    let v = if p_before & BREAK != 0 {
        pulled | BREAK
    } else {
        pulled & 0xEF
    };
    v | RESERVED
}

/// The branch target: the program counter after the operand plus the signed
/// 8-bit offset, modulo 2^16.
pub open spec fn rel_target(pc: u16, off: u8) -> u16 {
    (((pc as int) + (off as int) + (if off < 0x80 {
        0int
    } else {
        0xFF00int
    })) % 0x10000) as u16
}

/// A branch offset below 0x80 moves the program counter forward by the
/// offset; one at or above 0x80 moves it back by 0x100 minus the offset —
/// together: the new program counter is the old one plus the sign-extended
/// offset, modulo 2^16.
pub proof fn lemma_relative_branch_target(pc: u16, off: u8)
    ensures
        off < 0x80 ==> rel_target(pc, off) == (pc + off) % 0x10000,
        off >= 0x80 ==> rel_target(pc, off) == (pc + off - 0x100) % 0x10000,
{
    if off >= 0x80 {
        let s = pc as int + off as int;
        assert((s + 0xFF00) % 0x10000 == (s - 0x100) % 0x10000) by (nonlinear_arith);
    }
}

/// Whether a conditional branch with mnemonic `o` is taken under status `p`.
pub open spec fn branch_cond(o: OpCodes, p: u8) -> bool {
    match o {
        OpCodes::BCS => p & CARRY != 0,
        OpCodes::BCC => p & CARRY == 0,
        OpCodes::BEQ => p & ZERO != 0,
        OpCodes::BNE => p & ZERO == 0,
        OpCodes::BMI => p & NEGATIVE != 0,
        OpCodes::BPL => p & NEGATIVE == 0,
        OpCodes::BVS => p & OVERFLOW != 0,
        OpCodes::BVC => p & OVERFLOW == 0,
        _ => false,
    }
}

/// The conditional-branch mnemonics.
pub open spec fn is_cond_branch(o: OpCodes) -> bool {
    o == OpCodes::BCS || o == OpCodes::BCC || o == OpCodes::BEQ || o == OpCodes::BNE
        || o == OpCodes::BMI || o == OpCodes::BPL || o == OpCodes::BVS || o == OpCodes::BVC
}

/// A byte written through any of the four WRAM mirrors is read back through
/// all of them: bus reads and writes below 0x2000 address the 2-KiB work RAM
/// at the address modulo 0x0800, so addresses with equal remainders share a
/// cell.
pub proof fn lemma_wram_mirrors(a: u16, b: u16, wram: Seq<u8>, data: u8)
    requires
        a < 0x2000,
        b < 0x2000,
        a % 0x800 == b % 0x800,
        wram.len() == WRAM_SIZE,
    ensures
        wram.update(a as int % 0x800, data)[b as int % 0x800] == data,
{
}

/// Stack accesses stay inside page 0x0100: the 8-bit stack pointer keeps
/// every push and pull address within 0x0100..=0x01FF, and pushes move the
/// pointer by one, wrapping modulo 256.
pub proof fn lemma_stack_stays_in_page_one(sp: u8)
    ensures
        0x100 <= 0x100 + sp < 0x200,
        0 <= (sp + 0xFF) % 0x100 < 0x100,
        (sp + 0xFF) % 0x100 == (if sp == 0 { 0xFFint } else { sp - 1 }),
{
}

/// Shifting a byte into the high half of a 16-bit word is multiplication by
/// 256.
pub proof fn lemma_shl8(h: u8)
    by (bit_vector)
    ensures
        (h as u16) << 8u16 == h as u16 * 256,
{
}

/// The low sixteen bits of a 32-bit word are its remainder modulo 2^16.
pub proof fn lemma_low16(s: u32)
    by (bit_vector)
    ensures
        s & 0xFFFF == s % 0x10000,
        ((s & 0xFFFF) as u16) as u32 == s & 0xFFFF,
{
}

/// Program counters from which a three-byte instruction can be fetched
/// without side effects: wholly inside work RAM or wholly inside ROM.
pub open spec fn fetch_window(pc: u16) -> bool {
    pc <= 0x1FFD || 0x8000 <= pc <= 0xFFFC
}

/// What fetch resolves for each addressing mode when the instruction bytes
/// lie in ROM: the operand value or effective address in `f.data`, the
/// page-crossing penalty in `f.add_cycle`, and the advanced program counter.
/// The indirect modes read their pointers from the zero page; the
/// absolute-indirect mode wraps the pointer's high byte within its page.
pub open spec fn fetch_exact(c0: Cpu, b0: Bus, f: FetchedOp, c1: Cpu) -> bool {
    let pc = c0.reg.pc as int;
    let operand8 = cpu_plain_byte(b0, pc + 1);
    let operand16 = cpu_plain_word(b0, pc + 1);
    let x = c0.reg.x as int;
    let y = c0.reg.y as int;
    let wram = b0.wram.data@;
    match f.op.mode {
        AddrModes::IMPL | AddrModes::ACM => f.data == 0 && f.add_cycle == 0 && c1.reg.pc
            == pc + 1,
        AddrModes::IMD | AddrModes::ZPG => f.data == operand8 && f.add_cycle == 0
            && c1.reg.pc == pc + 2,
        AddrModes::REL => f.data == rel_target(((pc + 2) % 0x10000) as u16, operand8)
            && c1.reg.pc == pc + 2,
        AddrModes::ZPGX => f.data == (x + operand8) % 0x100 && f.add_cycle == 0
            && c1.reg.pc == pc + 2,
        AddrModes::ZPGY => f.data == (y + operand8) % 0x100 && f.add_cycle == 0
            && c1.reg.pc == pc + 2,
        AddrModes::ABS => f.data == operand16 && f.add_cycle == 0 && c1.reg.pc == pc + 3,
        AddrModes::ABSX => {
            let sum = operand16 + x;
            &&& f.data == sum % 0x10000
            &&& f.add_cycle == (if ((sum as u32) ^ (operand16 as u32)) & 0xFF00u32 != 0 {
                1u8
            } else {
                0u8
            })
            &&& c1.reg.pc == pc + 3
        },
        AddrModes::ABSY => {
            let sum = operand16 + y;
            &&& f.data == sum % 0x10000
            &&& f.add_cycle == (if ((sum as u32) ^ (operand16 as u32)) & 0xFF00u32 != 0 {
                1u8
            } else {
                0u8
            })
            &&& c1.reg.pc == pc + 3
        },
        AddrModes::INDX => {
            let baddr = (x + operand8) % 0x100;
            &&& f.data == wram[baddr] + 256 * wram[(baddr + 1) % 0x100]
            &&& f.add_cycle == 0
            &&& c1.reg.pc == pc + 2
        },
        AddrModes::INDY => {
            let baddr = operand8 as int;
            let val = wram[baddr] + 256 * wram[(baddr + 1) % 0x100];
            let sum = val + y;
            &&& f.data == sum % 0x10000
            &&& f.add_cycle == (if ((sum as u32) ^ (val as u32)) & 0xFF00u32 != 0 {
                1u8
            } else {
                0u8
            })
            &&& c1.reg.pc == pc + 2
        },
        AddrModes::ABSIND => {
            &&& c1.reg.pc == pc + 3
            &&& (plain_addr(operand16) ==> f.data == cpu_plain_byte(b0, operand16) + 256
                * cpu_plain_byte(
                b0,
                (operand16 / 0x100) * 0x100 + (operand16 % 0x100 + 1) % 0x100,
            ))
        },
    }
}

// ---------------------------------------------------------------------------
// ALU helpers
// ---------------------------------------------------------------------------

/// Add with carry.
pub fn alu_adc(a: u8, d: u8, p: u8) -> (r: (u8, u8))
    ensures
        r == adc_spec(a, d, p),
{
    let result: u16 = a as u16 + d as u16 + (if p & CARRY != 0 {
        1u16
    } else {
        0u16
    });
    let r8: u8 = (result & 0xFF) as u8;
    let p1 = if result > 0xFF {
        p | CARRY
    } else {
        p & 0xFE
    };
    let p2 = if (d ^ r8) & 0x80 != 0 && (a ^ r8) & 0x80 != 0 {
        p1 | OVERFLOW
    } else {
        p1 & 0xBF
    };
    (r8, exec_flags_zn(p2, r8))
}

/// Subtract with borrow.
pub fn alu_sbc(a: u8, d: u8, p: u8) -> (r: (u8, u8))
    ensures
        r == sbc_spec(a, d, p),
{
    let borrow: u16 = if p & CARRY != 0 {
        0u16
    } else {
        1u16
    };
    let result: u16 = (a as u16).wrapping_sub(d as u16).wrapping_sub(borrow);
    let r8: u8 = (result & 0xFF) as u8;
    let p1 = if a as u16 >= d as u16 + borrow {
        p | CARRY
    } else {
        p & 0xFE
    };
    let p2 = if (a ^ d) & 0x80 != 0 && (a ^ r8) & 0x80 != 0 {
        p1 | OVERFLOW
    } else {
        p1 & 0xBF
    };
    (r8, exec_flags_zn(p2, r8))
}

/// Compare a register with an operand.
pub fn alu_cmp(reg: u8, d: u8, p: u8) -> (r: u8)
    ensures
        r == cmp_spec(reg, d, p),
{
    let diff: u8 = ((reg as u16).wrapping_sub(d as u16) & 0xFF) as u8;
    proof {
        let rr = reg as u16;
        let dd = d as u16;
        assert(rr.wrapping_sub(dd) as u8 == (rr.wrapping_sub(dd) & 0xFF) as u8)
            by (bit_vector);
    }
    let p1 = if reg >= d {
        p | CARRY
    } else {
        p & 0xFE
    };
    exec_flags_zn(p1, diff)
}

/// Arithmetic shift left.
pub fn alu_asl(d: u8, p: u8) -> (r: (u8, u8))
    ensures
        r == asl_spec(d, p),
{
    let r8: u8 = ((d as u16) << 1u16 & 0xFF) as u8;
    let p1 = if d & 0x80 != 0 {
        p | CARRY
    } else {
        p & 0xFE
    };
    (r8, exec_flags_zn(p1, r8))
}

/// Logical shift right.
pub fn alu_lsr(d: u8, p: u8) -> (r: (u8, u8))
    ensures
        r == lsr_spec(d, p),
{
    let r8: u8 = d >> 1u8;
    let p1 = if d & 0x01 != 0 {
        p | CARRY
    } else {
        p & 0xFE
    };
    (r8, exec_flags_zn(p1, r8))
}

/// Rotate left through carry.
pub fn alu_rol(d: u8, p: u8) -> (r: (u8, u8))
    ensures
        r == rol_spec(d, p),
{
    let shifted: u8 = ((d as u16) << 1u16 & 0xFF) as u8;
    let r8: u8 = if p & CARRY != 0 {
        shifted | 0x01
    } else {
        shifted & 0xFE
    };
    let p1 = if d & 0x80 != 0 {
        p | CARRY
    } else {
        p & 0xFE
    };
    (r8, exec_flags_zn(p1, r8))
}

/// Rotate right through carry.
pub fn alu_ror(d: u8, p: u8) -> (r: (u8, u8))
    ensures
        r == ror_spec(d, p),
{
    let shifted: u8 = d >> 1u8;
    let r8: u8 = if p & CARRY != 0 {
        shifted | 0x80
    } else {
        shifted & 0x7F
    };
    let p1 = if d & 0x01 != 0 {
        p | CARRY
    } else {
        p & 0xFE
    };
    (r8, exec_flags_zn(p1, r8))
}

/// Bit test.
pub fn alu_bit(d: u8, a: u8, p: u8) -> (r: u8)
    ensures
        r == bit_spec(d, a, p),
{
    let p1 = if d & 0x40 != 0 {
        p | OVERFLOW
    } else {
        p & 0xBF
    };
    let p2 = if d & 0x80 != 0 {
        p1 | NEGATIVE
    } else {
        p1 & 0x7F
    };
    if d & a == 0 {
        p2 | ZERO
    } else {
        p2 & 0xFD
    }
}

/// Refreshes the Zero and Negative bits of `p` from `result`.
pub fn exec_flags_zn(p: u8, result: u8) -> (r: u8)
    ensures
        r == flags_zn(p, result),
{
    let p1 = if result & 0x80 != 0 {
        p | 0x80
    } else {
        p & 0x7F
    };
    if result == 0 {
        p1 | 0x02
    } else {
        p1 & 0xFD
    }
}

// ---------------------------------------------------------------------------
// Register-interface relations seen from the CPU bus
// ---------------------------------------------------------------------------

/// How a PPU register read at register index `reg` relates the old and new
/// PPU states and the byte returned.
pub open spec fn ppu_reg_read_rel(p0: Ppu, p1: Ppu, reg: int, r: u8) -> bool {
    &&& (reg == 2 ==> (p1, r) == spec_read_status(p0))
    &&& (reg == 4 ==> p1 == p0 && r == p0.sprite_ram.data@[p0.sprite_ram_addr as int])
    &&& (reg == 7 ==> (p1, r) == spec_vram_read(p0))
    &&& (reg == 0 || reg == 1 || reg == 3 || reg == 5 || reg == 6 ==> p1 == p0 && r == 0)
}

/// How a PPU register write at register index `reg` relates the old and new
/// PPU states.
pub open spec fn ppu_reg_write_rel(p0: Ppu, p1: Ppu, reg: int, data: u8) -> bool {
    &&& (reg == 0 ==> p1 == (Ppu { creg1: data, ..p0 }))
    &&& (reg == 1 ==> p1 == (Ppu { creg2: data, ..p0 }))
    &&& (reg == 2 ==> p1 == p0)
    &&& (reg == 3 ==> p1 == (Ppu { sprite_ram_addr: data as u16, ..p0 }))
    &&& (reg == 4 ==> p1 == (Ppu {
        sprite_ram: p1.sprite_ram,
        sprite_ram_addr: ((p0.sprite_ram_addr + 1) % 0x100) as u16,
        ..p0
    }) && p1.sprite_ram.data@ == p0.sprite_ram.data@.update(p0.sprite_ram_addr as int, data))
    &&& (reg == 5 ==> p1 == spec_write_scroll(p0, data))
    &&& (reg == 6 ==> p1 == spec_write_vram_addr(p0, data))
    &&& (reg == 7 ==> vram_data_written(p0, p1, data))
}

/// How a controller-port read relates the old and new port states and the
/// bit returned.
pub open spec fn keypad_read_rel(k0: KeyPadRegister, k1: KeyPadRegister, r: u8) -> bool {
    if k0.addr < 8 {
        &&& r == (if keypad_button(k0, k0.addr as int) {
            1u8
        } else {
            0u8
        })
        &&& k1 == (KeyPadRegister { addr: (k0.addr + 1) as u16, ..k0 })
    } else {
        r == 0 && k1 == k0
    }
}

// ---------------------------------------------------------------------------
// The CPU
// ---------------------------------------------------------------------------

/// The decoded instruction handed from fetch to execute: the opcode byte,
/// its table entry, the resolved operand or address, and the page-crossing
/// cycle penalty.
pub struct FetchedOp {
    pub index: u8,
    pub op: OpInfo,
    pub data: u16,
    pub add_cycle: u8,
}

/// The CPU: instruction counter, cycle counter, branch latch, register
/// file, mapper state and the two controller ports.
pub struct Cpu {
    pub index: u64,
    pub cycle: u64,
    pub has_branched: bool,
    pub reg: Register,
    pub mapper: Mapper,
    pub keypad1: KeyPadRegister,
    pub keypad2: KeyPadRegister,
}

impl Cpu {
    /// A CPU at power-on, with the cartridge's mapper id latched.
    pub fn new(cas: &Cassette) -> (r: Cpu)
        ensures
            r.index == 0,
            r.cycle == 0,
            !r.has_branched,
            r.reg.a == 0 && r.reg.x == 0 && r.reg.y == 0,
            r.reg.sp == 0xFD && r.reg.pc == 0xC000 && r.reg.p == 0x24,
            r.mapper.mapper == cas.mapper && r.mapper.bank == 0,
            r.keypad1.addr == 0 && r.keypad2.addr == 0,
    {
        Cpu {
            index: 0,
            cycle: 0,
            has_branched: false,
            reg: Register::new(),
            mapper: Mapper::new(cas.mapper, 0),
            keypad1: KeyPadRegister::new(),
            keypad2: KeyPadRegister::new(),
        }
    }

    /// One bus read. Work RAM is mirrored every 0x0800; PPU registers fold
    /// modulo 8; 0x4015 reads APU status and acknowledges the frame IRQ;
    /// 0x4016/0x4017 read the controller ports; unmapped windows read zero;
    /// 0x8000 and up reads program ROM (a 16-KiB image mirrored twice).
    pub fn read(&mut self, bus: &mut Bus, addr: u16) -> (r: u8)
        requires
            old(bus).wf(),
        ensures
            final(bus).wf(),
            final(self).reg == old(self).reg,
            final(self).mapper == old(self).mapper,
            final(self).index == old(self).index,
            final(self).cycle == old(self).cycle,
            final(self).has_branched == old(self).has_branched,
            final(bus).cas == old(bus).cas,
            final(bus).wram == old(bus).wram,
            final(bus).apu == old(bus).apu,
            ppu_timing_kept(*old(bus), *final(bus)),
            addr < 0x2000 ==> r == old(bus).wram.data@[addr as int % 0x800] && *final(bus)
                == *old(bus) && *final(self) == *old(self),
            0x2000 <= addr < 0x4000 ==> ppu_reg_read_rel(
                old(bus).ppu,
                final(bus).ppu,
                (addr - 0x2000) as int % 8,
                r,
            ) && final(bus).interrupts == old(bus).interrupts && *final(self) == *old(self),
            addr == 0x4015 ==> r == old(bus).apu.register.data@[0x15] && !final(bus).interrupts.irq && final(bus).interrupts.nmi == old(bus).interrupts.nmi
                && final(bus).ppu == old(bus).ppu && *final(self) == *old(self),
            addr == 0x4016 ==> keypad_read_rel(old(self).keypad1, final(self).keypad1, r)
                && final(self).keypad2 == old(self).keypad2 && *final(bus) == *old(bus),
            addr == 0x4017 ==> keypad_read_rel(old(self).keypad2, final(self).keypad2, r)
                && final(self).keypad1 == old(self).keypad1 && *final(bus) == *old(bus),
            0x4000 <= addr < 0x4020 && addr != 0x4015 && addr != 0x4016 && addr != 0x4017
                ==> r == 0 && *final(bus) == *old(bus) && *final(self) == *old(self),
            0x4020 <= addr < 0x8000 ==> r == 0 && *final(bus) == *old(bus) && *final(self)
                == *old(self),
            addr >= 0x8000 ==> r == prog_byte(old(bus).cas, addr as int) && *final(bus)
                == *old(bus) && *final(self) == *old(self),
    {
        if addr < 0x2000 {
            bus.wram.read(addr % 0x800)
        } else if addr < 0x4000 {
            bus.ppu.read((addr - 0x2000) % 8)
        } else if addr == 0x4015 {
            bus.apu.read(&mut bus.interrupts, addr)
        } else if addr == 0x4016 {
            self.keypad1.read()
        } else if addr == 0x4017 {
            self.keypad2.read()
        } else if addr < 0x4020 {
            0
        } else if addr < 0x8000 {
            0
        } else if addr < 0xC000 {
            bus.cas.prog_rom_read(addr - 0x8000)
        } else if bus.cas.prog_size <= 0x4000 {
            bus.cas.prog_rom_read(addr - 0xC000)
        } else {
            bus.cas.prog_rom_read(addr - 0x8000)
        }
    }

    /// A 16-bit little-endian bus read.
    pub fn wread(&mut self, bus: &mut Bus, addr: u16) -> (r: u16)
        requires
            old(bus).wf(),
        ensures
            final(bus).wf(),
            final(self).reg == old(self).reg,
            final(self).mapper == old(self).mapper,
            final(self).index == old(self).index,
            final(self).cycle == old(self).cycle,
            final(self).has_branched == old(self).has_branched,
            final(bus).cas == old(bus).cas,
            final(bus).wram == old(bus).wram,
            ppu_timing_kept(*old(bus), *final(bus)),
            0x8000 <= addr < 0xFFFF ==> r == prog_word(old(bus).cas, addr as int)
                && *final(bus) == *old(bus) && *final(self) == *old(self),
            addr < 0x1FFF ==> r == old(bus).wram.data@[addr as int % 0x800] + 256 * old(bus).wram.data@[(addr + 1) as int % 0x800] && *final(bus) == *old(bus)
                && *final(self) == *old(self),
    {
        let lo = self.read(bus, addr);
        let hi = self.read(bus, addr.wrapping_add(1));
        proof {
            lemma_shl8(hi);
        }
        lo as u16 + ((hi as u16) << 8u16)
    }

    /// One bus write. Work RAM and its mirrors, the PPU registers (modulo
    /// 8), OAM DMA at 0x4014, the controller strobe at 0x4016, the APU
    /// registers (0x4017 selects the frame-sequencer mode), the SRAM window
    /// as a WRAM mirror, and bank select on writes into ROM space.
    pub fn write(&mut self, bus: &mut Bus, addr: u16, data: u8)
        requires
            old(bus).wf(),
        ensures
            final(bus).wf(),
            final(self).reg == old(self).reg,
            final(self).index == old(self).index,
            final(self).cycle == old(self).cycle,
            final(self).has_branched == old(self).has_branched,
            final(self).mapper.mapper == old(self).mapper.mapper,
            final(bus).cas == old(bus).cas,
            ppu_timing_kept(*old(bus), *final(bus)),
            addr < 0x2000 ==> final(bus).wram.data@ == old(bus).wram.data@.update(
                addr as int % 0x800,
                data,
            ) && *final(bus) == (Bus { wram: final(bus).wram, ..*old(bus) }) && *final(self)
                == *old(self),
            0x2000 <= addr < 0x4000 ==> ppu_reg_write_rel(
                old(bus).ppu,
                final(bus).ppu,
                (addr - 0x2000) as int % 8,
                data,
            ) && *final(bus) == (Bus { ppu: final(bus).ppu, ..*old(bus) }) && *final(self)
                == *old(self),
            addr == 0x4014 ==> final(bus).ppu.sprite_ram_addr == 0 && (data < 0x20 ==> {
                &&& final(bus).ppu == (Ppu {
                    sprite_ram: final(bus).ppu.sprite_ram,
                    sprite_ram_addr: 0u16,
                    ..old(bus).ppu
                })
                &&& final(bus).ppu.sprite_ram.data@ == Seq::new(
                    SPRITE_RAM_SIZE as nat,
                    |i: int| old(bus).wram.data@[(data * 0x100 + i) % 0x800],
                )
                &&& *final(bus) == (Bus { ppu: final(bus).ppu, ..*old(bus) })
                &&& *final(self) == *old(self)
            }),
            addr == 0x4016 ==> *final(bus) == *old(bus) && final(self).reg == old(self).reg,
            0x4000 <= addr < 0x4018 && addr != 0x4014 && addr != 0x4016 ==> {
                &&& final(bus).apu.register.data@ == old(bus).apu.register.data@.update(
                    addr - 0x4000,
                    data,
                )
                &&& (addr == 0x4017 ==> final(bus).apu.is_sequencer_mode == (data & 0x80
                    != 0) && final(bus).apu.is_enable_irq == (data & 0x40 == 0) && final(bus).apu.step == 0 && final(bus).apu.cycle == 0)
                &&& (addr != 0x4017 ==> final(bus).apu.is_sequencer_mode == old(bus).apu.is_sequencer_mode && final(bus).apu.is_enable_irq == old(bus).apu.is_enable_irq && final(bus).apu.step == old(bus).apu.step && final(bus).apu.cycle == old(bus).apu.cycle)
                &&& *final(bus) == (Bus { apu: final(bus).apu, ..*old(bus) })
                &&& *final(self) == *old(self)
            },
            0x4018 <= addr < 0x6000 ==> *final(bus) == *old(bus) && *final(self) == *old(self),
            0x6000 <= addr < 0x8000 ==> final(bus).wram.data@ == old(bus).wram.data@.update(
                addr as int % 0x800,
                data,
            ) && *final(bus) == (Bus { wram: final(bus).wram, ..*old(bus) }) && *final(self)
                == *old(self),
            addr >= 0x8000 ==> *final(bus) == *old(bus) && *final(self) == (Cpu {
                mapper: (Mapper { bank: data, ..old(self).mapper }),
                ..*old(self)
            }),
    {
        if addr < 0x2000 {
            bus.wram.write(addr % 0x800, data);
        } else if addr < 0x4000 {
            bus.ppu.write((addr - 0x2000) % 8, data);
        } else if addr == 0x4014 {
            self.oam_dma(bus, data);
        } else if addr == 0x4016 {
            self.keypad1.write(data);
            self.keypad2.write(data);
        } else if addr < 0x4018 {
            bus.apu.write(addr, data);
        } else if addr < 0x6000 {
            // unmapped expansion space: writes are ignored
        } else if addr < 0x8000 {
            bus.wram.write(addr % 0x800, data);
        } else {
            self.mapper.set_bank(data);
        }
    }

    /// OAM DMA: resets the OAM address and copies the 256 bytes of CPU page
    /// `page` into OAM. For a page inside work RAM the transfer is exactly
    /// the mirrored WRAM segment.
    fn oam_dma(&mut self, bus: &mut Bus, page: u8)
        requires
            old(bus).wf(),
        ensures
            final(bus).wf(),
            final(self).reg == old(self).reg,
            final(self).index == old(self).index,
            final(self).cycle == old(self).cycle,
            final(self).has_branched == old(self).has_branched,
            final(self).mapper == old(self).mapper,
            final(bus).cas == old(bus).cas,
            ppu_timing_kept(*old(bus), *final(bus)),
            final(bus).ppu.sprite_ram_addr == 0,
            page < 0x20 ==> {
                &&& final(bus).ppu == (Ppu {
                    sprite_ram: final(bus).ppu.sprite_ram,
                    sprite_ram_addr: 0u16,
                    ..old(bus).ppu
                })
                &&& final(bus).ppu.sprite_ram.data@ == Seq::new(
                    SPRITE_RAM_SIZE as nat,
                    |i: int| old(bus).wram.data@[(page * 0x100 + i) % 0x800],
                )
                &&& *final(bus) == (Bus { ppu: final(bus).ppu, ..*old(bus) })
                &&& *final(self) == *old(self)
            },
    {
        bus.ppu.write_sprite_ram_addr(0);
        let base: u16 = page as u16 * 0x100;
        let mut i: u16 = 0;
        while i < 256
            invariant
                i <= 256,
                bus.wf(),
                base == page * 0x100,
                self.reg == old(self).reg,
                self.index == old(self).index,
                self.cycle == old(self).cycle,
                self.has_branched == old(self).has_branched,
                self.mapper == old(self).mapper,
                bus.cas == old(bus).cas,
                ppu_timing_kept(*old(bus), *bus),
                bus.ppu.sprite_ram_addr as int == i as int % 0x100,
                page < 0x20 ==> {
                    &&& bus.ppu == (Ppu {
                        sprite_ram: bus.ppu.sprite_ram,
                        sprite_ram_addr: bus.ppu.sprite_ram_addr,
                        ..old(bus).ppu
                    })
                    &&& bus.ppu.sprite_ram.data@.len() == SPRITE_RAM_SIZE
                    &&& forall|k: int|
                        0 <= k < i ==> bus.ppu.sprite_ram.data@[k] == old(bus).wram.data@[(page * 0x100 + k) % 0x800]
                    &&& forall|k: int|
                        i <= k < SPRITE_RAM_SIZE ==> bus.ppu.sprite_ram.data@[k] == old(bus).ppu.sprite_ram.data@[k]
                    &&& *bus == (Bus { ppu: bus.ppu, ..*old(bus) })
                    &&& *self == *old(self)
                },
            decreases 256 - i,
        {
            let b = self.read(bus, base + i);
            bus.ppu.write_sprite_ram_data(b);
            i = i + 1;
        }
        proof {
            if page < 0x20 {
                assert(bus.ppu.sprite_ram.data@ =~= Seq::new(
                    SPRITE_RAM_SIZE as nat,
                    |k: int| old(bus).wram.data@[(page * 0x100 + k) % 0x800],
                ));
            }
        }
    }

    /// Pushes a byte onto the stack in page 0x0100; the stack pointer wraps
    /// within the page.
    pub fn push(&mut self, bus: &mut Bus, data: u8)
        requires
            old(bus).wf(),
        ensures
            final(bus).wf(),
            final(bus).wram.data@ == old(bus).wram.data@.update(
                0x100 + old(self).reg.sp,
                data,
            ),
            *final(bus) == (Bus { wram: final(bus).wram, ..*old(bus) }),
            *final(self) == (Cpu {
                reg: (Register {
                    sp: ((old(self).reg.sp + 0xFF) % 0x100) as u8,
                    ..old(self).reg
                }),
                ..*old(self)
            }),
    {
        let sp = self.reg.sp;
        self.write(bus, 0x100 + sp as u16, data);
        self.reg.sp = sp.wrapping_sub(1);
        proof {
            assert(sp.wrapping_sub(1) == (sp + 0xFF) % 0x100) by (bit_vector);
        }
    }

    /// Pulls a byte from the stack; the stack pointer pre-increments,
    /// wrapping within page 0x0100.
    pub fn pop(&mut self, bus: &mut Bus) -> (r: u8)
        requires
            old(bus).wf(),
        ensures
            final(bus).wf(),
            *final(bus) == *old(bus),
            r == old(bus).wram.data@[0x100 + ((old(self).reg.sp + 1) % 0x100)],
            *final(self) == (Cpu {
                reg: (Register {
                    sp: ((old(self).reg.sp + 1) % 0x100) as u8,
                    ..old(self).reg
                }),
                ..*old(self)
            }),
    {
        proof {
            let sp = self.reg.sp;
            assert(sp.wrapping_add(1) == (sp + 1) % 0x100) by (bit_vector);
        }
        self.reg.sp = self.reg.sp.wrapping_add(1);
        let r = self.read(bus, 0x100 + self.reg.sp as u16);
        r
    }

    /// Pushes the program counter, high byte first.
    pub fn push_pc(&mut self, bus: &mut Bus)
        requires
            old(bus).wf(),
        ensures
            final(bus).wf(),
            final(bus).wram.data@ == old(bus).wram.data@.update(
                0x100 + old(self).reg.sp,
                (old(self).reg.pc >> 8u16) as u8,
            ).update(
                0x100 + ((old(self).reg.sp + 0xFF) % 0x100),
                (old(self).reg.pc & 0xFF) as u8,
            ),
            *final(bus) == (Bus { wram: final(bus).wram, ..*old(bus) }),
            *final(self) == (Cpu {
                reg: (Register {
                    sp: ((old(self).reg.sp + 0xFE) % 0x100) as u8,
                    ..old(self).reg
                }),
                ..*old(self)
            }),
    {
        let pc = self.reg.pc;
        self.push(bus, (pc >> 8u16) as u8);
        self.push(bus, (pc & 0xFF) as u8);
        proof {
            let sp = old(self).reg.sp;
            assert((((sp + 0xFF) % 0x100) + 0xFF) % 0x100 == (sp + 0xFE) % 0x100);
        }
    }

    /// Pushes the status register.
    pub fn push_reg_status(&mut self, bus: &mut Bus)
        requires
            old(bus).wf(),
        ensures
            final(bus).wf(),
            final(bus).wram.data@ == old(bus).wram.data@.update(
                0x100 + old(self).reg.sp,
                old(self).reg.p,
            ),
            *final(bus) == (Bus { wram: final(bus).wram, ..*old(bus) }),
            *final(self) == (Cpu {
                reg: (Register {
                    sp: ((old(self).reg.sp + 0xFF) % 0x100) as u8,
                    ..old(self).reg
                }),
                ..*old(self)
            }),
    {
        self.push(bus, self.reg.p);
    }

    /// Pulls the program counter, low byte first.
    pub fn pop_pc(&mut self, bus: &mut Bus)
        requires
            old(bus).wf(),
        ensures
            final(bus).wf(),
            *final(bus) == *old(bus),
            *final(self) == (Cpu {
                reg: (Register {
                    sp: ((old(self).reg.sp + 2) % 0x100) as u8,
                    pc: final(self).reg.pc,
                    ..old(self).reg
                }),
                ..*old(self)
            }),
            final(self).reg.pc == old(bus).wram.data@[0x100 + ((old(self).reg.sp + 1)
                % 0x100)] + 256 * old(bus).wram.data@[0x100 + ((old(self).reg.sp + 2)
                % 0x100)],
    {
        let lo = self.pop(bus);
        let hi = self.pop(bus);
        proof {
            lemma_shl8(hi);
        }
        self.reg.pc = lo as u16 + ((hi as u16) << 8u16);
    }

    /// Pulls the status register byte (raw; PLP and RTI apply their bit-4/5
    /// folding on top).
    pub fn pop_reg_status(&mut self, bus: &mut Bus)
        requires
            old(bus).wf(),
        ensures
            final(bus).wf(),
            *final(bus) == *old(bus),
            *final(self) == (Cpu {
                reg: (Register {
                    sp: ((old(self).reg.sp + 1) % 0x100) as u8,
                    p: old(bus).wram.data@[0x100 + ((old(self).reg.sp + 1) % 0x100)],
                    ..old(self).reg
                }),
                ..*old(self)
            }),
    {
        let v = self.pop(bus);
        self.reg.p = v;
    }

    /// Fetches the byte at the program counter and advances it.
    pub fn bfetch(&mut self, bus: &mut Bus) -> (r: u8)
        requires
            old(bus).wf(),
        ensures
            final(bus).wf(),
            *final(self) == (Cpu {
                reg: (Register {
                    pc: ((old(self).reg.pc + 1) % 0x10000) as u16,
                    ..old(self).reg
                }),
                keypad1: final(self).keypad1,
                keypad2: final(self).keypad2,
                ..*old(self)
            }),
            final(bus).cas == old(bus).cas,
            final(bus).wram == old(bus).wram,
            ppu_timing_kept(*old(bus), *final(bus)),
            plain_addr(old(self).reg.pc as int) ==> r == cpu_plain_byte(
                *old(bus),
                old(self).reg.pc as int,
            ) && *final(bus) == *old(bus) && final(self).keypad1 == old(self).keypad1
                && final(self).keypad2 == old(self).keypad2,
    {
        let d = self.read(bus, self.reg.pc);
        self.reg.pc = self.reg.pc.wrapping_add(1);
        d
    }

    /// Fetches the 16-bit little-endian word at the program counter and
    /// advances it by two.
    pub fn wfetch(&mut self, bus: &mut Bus) -> (r: u16)
        requires
            old(bus).wf(),
        ensures
            final(bus).wf(),
            *final(self) == (Cpu {
                reg: (Register {
                    pc: ((old(self).reg.pc + 2) % 0x10000) as u16,
                    ..old(self).reg
                }),
                keypad1: final(self).keypad1,
                keypad2: final(self).keypad2,
                ..*old(self)
            }),
            final(bus).cas == old(bus).cas,
            final(bus).wram == old(bus).wram,
            ppu_timing_kept(*old(bus), *final(bus)),
            (old(self).reg.pc <= 0x1FFE || 0x8000 <= old(self).reg.pc < 0xFFFF) ==> r
                == cpu_plain_word(*old(bus), old(self).reg.pc as int) && *final(bus)
                == *old(bus) && final(self).keypad1 == old(self).keypad1 && final(self).keypad2 == old(self).keypad2,
    {
        let d = self.wread(bus, self.reg.pc);
        self.reg.pc = self.reg.pc.wrapping_add(2);
        d
    }

    /// Refreshes Zero and Negative from `result`.
    pub fn set_flag_after_calc(&mut self, result: u8)
        ensures
            *final(self) == (Cpu {
                reg: (Register { p: flags_zn(old(self).reg.p, result), ..old(self).reg }),
                ..*old(self)
            }),
    {
        self.reg.p = exec_flags_zn(self.reg.p, result);
    }

    /// Fetches and decodes one instruction: reads the opcode byte, looks it
    /// up, and resolves the operand for its addressing mode (with the page-
    /// crossing penalty for the indexed modes and the page-wrap quirk for
    /// absolute-indirect). A byte without a table entry is fatal.
    #[verifier::rlimit(100)]
    pub fn fetch_op(&mut self, bus: &mut Bus) -> (r: Result<FetchedOp, EmuError>)
        requires
            old(bus).wf(),
        ensures
            final(bus).wf(),
            fetch_rel(*old(self), *old(bus), *final(self), *final(bus), r),
    {
        let pc0 = self.reg.pc;
        let index = self.bfetch(bus);
        let info_opt = op_info(index);
        if info_opt.is_none() {
            return Err(EmuError::UnknownOpcode { opcode: index, pc: pc0 });
        }
        let op = info_opt.unwrap();
        let mut data: u32 = 0;
        let mut add_cycle: u8 = 0;
        match op.mode {
            AddrModes::ACM | AddrModes::IMPL => {},
            AddrModes::IMD | AddrModes::ZPG => {
                data = self.bfetch(bus) as u32;
            },
            AddrModes::REL => {
                let off = self.bfetch(bus);
                let base: u32 = self.reg.pc as u32 + off as u32 + (if off < 0x80 {
                    0
                } else {
                    0xFF00
                });
                data = base % 0x10000;
            },
            AddrModes::ZPGX => {
                let o = self.bfetch(bus);
                data = ((self.reg.x as u16 + o as u16) % 0x100) as u32;
            },
            AddrModes::ZPGY => {
                let o = self.bfetch(bus);
                data = ((self.reg.y as u16 + o as u16) % 0x100) as u32;
            },
            AddrModes::ABS => {
                data = self.wfetch(bus) as u32;
            },
            AddrModes::ABSX => {
                let addr = self.wfetch(bus) as u32;
                let sum = self.reg.x as u32 + addr;
                data = sum;
                add_cycle = if (sum ^ addr) & 0xFF00 != 0 {
                    1
                } else {
                    0
                };
            },
            AddrModes::ABSY => {
                let addr = self.wfetch(bus) as u32;
                let sum = self.reg.y as u32 + addr;
                data = sum;
                add_cycle = if (sum ^ addr) & 0xFF00 != 0 {
                    1
                } else {
                    0
                };
            },
            AddrModes::INDX => {
                let o = self.bfetch(bus);
                let baddr: u16 = (self.reg.x as u16 + o as u16) % 0x100;
                let baddr_: u16 = (baddr + 1) % 0x100;
                let lo = self.read(bus, baddr);
                let hi = self.read(bus, baddr_);
                data = lo as u32 + hi as u32 * 256;
            },
            AddrModes::INDY => {
                let o = self.bfetch(bus);
                let baddr: u16 = o as u16;
                let baddr_: u16 = (baddr + 1) % 0x100;
                let lo = self.read(bus, baddr);
                let hi = self.read(bus, baddr_);
                let val: u32 = lo as u32 + hi as u32 * 256;
                let sum: u32 = val + self.reg.y as u32;
                data = sum;
                add_cycle = if (sum ^ val) & 0xFF00 != 0 {
                    1
                } else {
                    0
                };
            },
            AddrModes::ABSIND => {
                let baddr: u16 = self.wfetch(bus);
                let baddr_: u16 = (baddr / 0x100) * 0x100 + ((baddr % 0x100 + 1) % 0x100);
                let lo = self.read(bus, baddr);
                let hi = self.read(bus, baddr_);
                data = lo as u32 + hi as u32 * 256;
            },
        }
        proof {
            lemma_low16(data);
        }
        Ok(FetchedOp { index, op, data: (data & 0xFFFF) as u16, add_cycle })
    }

    /// Redirects the program counter and remembers that a branch was taken
    /// (one extra cycle).
    pub fn branch(&mut self, addr: u16)
        ensures
            *final(self) == (Cpu {
                reg: (Register { pc: addr, ..old(self).reg }),
                has_branched: true,
                ..*old(self)
            }),
    {
        self.reg.pc = addr;
        self.has_branched = true;
    }
}

/// Folding PLP's and RTI's pulled byte always leaves the Reserved bit set.
pub broadcast proof fn lemma_plp_reserved(pulled: u8, p_before: u8)
    by (bit_vector)
    ensures
        #[trigger] plp_spec(pulled, p_before) & RESERVED != 0,
{
}

/// How one executed instruction relates the machine before (`c0`, `b0`) to
/// the machine after (`c1`, `b1`). For operations whose operand or target
/// lies in work RAM (or is immediate or a register) the clause is exact; for
/// operands behind bus side effects the result is pinned up to the byte that
/// came back. Instruction and cycle counters never move here; `has_branched`
/// moves only for a taken conditional branch.
pub open spec fn exec_rel(c0: Cpu, b0: Bus, fop: FetchedOp, c1: Cpu, b1: Bus) -> bool {
    let o = fop.op.opcode;
    let m = fop.op.mode;
    let a0 = c0.reg.a;
    let x0 = c0.reg.x;
    let y0 = c0.reg.y;
    let sp0 = c0.reg.sp;
    let pc0 = c0.reg.pc;
    let p0 = c0.reg.p;
    let d8 = (fop.data & 0xFF) as u8;
    let wram0 = b0.wram.data@;
    let midx = fop.data as int % 0x800;
    let mv = wram0[midx];
    &&& b1.wf()
    &&& b1.cas == b0.cas
    &&& ppu_timing_kept(b0, b1)
    &&& c1.index == c0.index
    &&& c1.cycle == c0.cycle
    &&& c1.mapper.mapper == c0.mapper.mapper
    &&& (!is_cond_branch(o) ==> c1.has_branched == c0.has_branched)
    // conditional branches
    &&& (is_cond_branch(o) ==> b1 == b0 && (if branch_cond(o, p0) {
        c1 == (Cpu {
            reg: (Register { pc: fop.data, ..c0.reg }),
            has_branched: true,
            ..c0
        })
    } else {
        c1 == c0
    }))
    // jumps and subroutines
    &&& (o == OpCodes::JMP ==> b1 == b0 && c1 == (Cpu {
        reg: (Register { pc: fop.data, ..c0.reg }),
        ..c0
    }))
    &&& (o == OpCodes::JSR ==> ({
        let t = ((pc0 + 0xFFFF) % 0x10000) as u16;
        &&& b1.wram.data@ == wram0.update(0x100 + sp0, (t >> 8u16) as u8).update(
            0x100 + ((sp0 + 0xFF) % 0x100),
            (t & 0xFF) as u8,
        )
        &&& b1 == (Bus { wram: b1.wram, ..b0 })
        &&& c1 == (Cpu {
            reg: (Register {
                pc: fop.data,
                sp: ((sp0 + 0xFE) % 0x100) as u8,
                ..c0.reg
            }),
            ..c0
        })
    }))
    &&& (o == OpCodes::RTS ==> b1 == b0 && c1 == (Cpu {
        reg: (Register {
            pc: ((wram0[0x100 + ((sp0 + 1) % 0x100)] + 256 * wram0[0x100 + ((sp0 + 2)
                % 0x100)] + 1) % 0x10000) as u16,
            sp: ((sp0 + 2) % 0x100) as u8,
            ..c0.reg
        }),
        ..c0
    }))
    // software interrupt and return
    &&& (o == OpCodes::BRK ==> ({
        let t = ((pc0 + 1) % 0x10000) as u16;
        &&& b1.wram.data@ == wram0.update(0x100 + sp0, (t >> 8u16) as u8).update(
            0x100 + ((sp0 + 0xFF) % 0x100),
            (t & 0xFF) as u8,
        ).update(0x100 + ((sp0 + 0xFE) % 0x100), p0 | BREAK)
        &&& b1 == (Bus { wram: b1.wram, ..b0 })
        &&& c1 == (Cpu {
            reg: (Register {
                pc: prog_word(b0.cas, 0xFFFE) as u16,
                sp: ((sp0 + 0xFD) % 0x100) as u8,
                p: p0 | INTERRUPT,
                ..c0.reg
            }),
            ..c0
        })
    }))
    &&& (o == OpCodes::RTI ==> ({
        let pulled = wram0[0x100 + ((sp0 + 1) % 0x100)];
        &&& b1 == b0
        &&& c1 == (Cpu {
            reg: (Register {
                p: plp_spec(pulled, p0),
                pc: (wram0[0x100 + ((sp0 + 2) % 0x100)] + 256 * wram0[0x100 + ((sp0 + 3)
                    % 0x100)]) as u16,
                sp: ((sp0 + 3) % 0x100) as u8,
                ..c0.reg
            }),
            ..c0
        })
        &&& c1.reg.p & RESERVED != 0
    }))
    // arithmetic and logic on the accumulator
    &&& (o == OpCodes::ADC ==> c1.reg.x == x0 && c1.reg.y == y0 && c1.reg.sp == sp0
        && c1.reg.pc == pc0 && (exists|dd: u8| (c1.reg.a, c1.reg.p) == adc_spec(a0, dd, p0))
        && (m == AddrModes::IMD ==> b1 == b0 && c1 == (Cpu {
        reg: (Register { a: adc_spec(a0, d8, p0).0, p: adc_spec(a0, d8, p0).1, ..c0.reg }),
        ..c0
    })) && (m != AddrModes::IMD && fop.data < 0x2000 ==> b1 == b0 && c1 == (Cpu {
        reg: (Register { a: adc_spec(a0, mv, p0).0, p: adc_spec(a0, mv, p0).1, ..c0.reg }),
        ..c0
    })))
    &&& (o == OpCodes::SBC ==> c1.reg.x == x0 && c1.reg.y == y0 && c1.reg.sp == sp0
        && c1.reg.pc == pc0 && (exists|dd: u8| (c1.reg.a, c1.reg.p) == sbc_spec(a0, dd, p0))
        && (m == AddrModes::IMD ==> b1 == b0 && c1 == (Cpu {
        reg: (Register { a: sbc_spec(a0, d8, p0).0, p: sbc_spec(a0, d8, p0).1, ..c0.reg }),
        ..c0
    })) && (m != AddrModes::IMD && fop.data < 0x2000 ==> b1 == b0 && c1 == (Cpu {
        reg: (Register { a: sbc_spec(a0, mv, p0).0, p: sbc_spec(a0, mv, p0).1, ..c0.reg }),
        ..c0
    })))
    &&& (o == OpCodes::AND ==> c1.reg.x == x0 && c1.reg.y == y0 && c1.reg.sp == sp0
        && c1.reg.pc == pc0 && zn_agree(c1.reg.p, c1.reg.a) && (m == AddrModes::IMD ==> b1
        == b0 && c1 == (Cpu {
        reg: (Register { a: a0 & d8, p: flags_zn(p0, a0 & d8), ..c0.reg }),
        ..c0
    })) && (m != AddrModes::IMD && fop.data < 0x2000 ==> b1 == b0 && c1 == (Cpu {
        reg: (Register { a: a0 & mv, p: flags_zn(p0, a0 & mv), ..c0.reg }),
        ..c0
    })))
    &&& (o == OpCodes::ORA ==> c1.reg.x == x0 && c1.reg.y == y0 && c1.reg.sp == sp0
        && c1.reg.pc == pc0 && zn_agree(c1.reg.p, c1.reg.a) && (m == AddrModes::IMD ==> b1
        == b0 && c1 == (Cpu {
        reg: (Register { a: a0 | d8, p: flags_zn(p0, a0 | d8), ..c0.reg }),
        ..c0
    })) && (m != AddrModes::IMD && fop.data < 0x2000 ==> b1 == b0 && c1 == (Cpu {
        reg: (Register { a: a0 | mv, p: flags_zn(p0, a0 | mv), ..c0.reg }),
        ..c0
    })))
    &&& (o == OpCodes::EOR ==> c1.reg.x == x0 && c1.reg.y == y0 && c1.reg.sp == sp0
        && c1.reg.pc == pc0 && zn_agree(c1.reg.p, c1.reg.a) && (m == AddrModes::IMD ==> b1
        == b0 && c1 == (Cpu {
        reg: (Register { a: a0 ^ d8, p: flags_zn(p0, a0 ^ d8), ..c0.reg }),
        ..c0
    })) && (m != AddrModes::IMD && fop.data < 0x2000 ==> b1 == b0 && c1 == (Cpu {
        reg: (Register { a: a0 ^ mv, p: flags_zn(p0, a0 ^ mv), ..c0.reg }),
        ..c0
    })))
    // compares
    &&& (o == OpCodes::CMP ==> c1.reg == (Register { p: c1.reg.p, ..c0.reg }) && (exists|
        dd: u8,
    | c1.reg.p == cmp_spec(a0, dd, p0)) && (m == AddrModes::IMD ==> b1 == b0 && c1 == (Cpu {
        reg: (Register { p: cmp_spec(a0, d8, p0), ..c0.reg }),
        ..c0
    })) && (m != AddrModes::IMD && fop.data < 0x2000 ==> b1 == b0 && c1 == (Cpu {
        reg: (Register { p: cmp_spec(a0, mv, p0), ..c0.reg }),
        ..c0
    })))
    &&& (o == OpCodes::CPX ==> c1.reg == (Register { p: c1.reg.p, ..c0.reg }) && (exists|
        dd: u8,
    | c1.reg.p == cmp_spec(x0, dd, p0)) && (m == AddrModes::IMD ==> b1 == b0 && c1 == (Cpu {
        reg: (Register { p: cmp_spec(x0, d8, p0), ..c0.reg }),
        ..c0
    })) && (m != AddrModes::IMD && fop.data < 0x2000 ==> b1 == b0 && c1 == (Cpu {
        reg: (Register { p: cmp_spec(x0, mv, p0), ..c0.reg }),
        ..c0
    })))
    &&& (o == OpCodes::CPY ==> c1.reg == (Register { p: c1.reg.p, ..c0.reg }) && (exists|
        dd: u8,
    | c1.reg.p == cmp_spec(y0, dd, p0)) && (m == AddrModes::IMD ==> b1 == b0 && c1 == (Cpu {
        reg: (Register { p: cmp_spec(y0, d8, p0), ..c0.reg }),
        ..c0
    })) && (m != AddrModes::IMD && fop.data < 0x2000 ==> b1 == b0 && c1 == (Cpu {
        reg: (Register { p: cmp_spec(y0, mv, p0), ..c0.reg }),
        ..c0
    })))
    // bit test
    &&& (o == OpCodes::BIT ==> c1.reg == (Register { p: c1.reg.p, ..c0.reg }) && (exists|
        dd: u8,
    | c1.reg.p == bit_spec(dd, a0, p0)) && (fop.data < 0x2000 ==> b1 == b0 && c1 == (Cpu {
        reg: (Register { p: bit_spec(mv, a0, p0), ..c0.reg }),
        ..c0
    })))
    // shifts and rotates
    &&& (o == OpCodes::ASL ==> ({
        &&& (m == AddrModes::ACM ==> b1 == b0 && c1 == (Cpu {
            reg: (Register { a: asl_spec(a0, p0).0, p: asl_spec(a0, p0).1, ..c0.reg }),
            ..c0
        }))
        &&& (m != AddrModes::ACM && fop.data < 0x2000 ==> b1.wram.data@ == wram0.update(
            midx,
            asl_spec(mv, p0).0,
        ) && b1 == (Bus { wram: b1.wram, ..b0 }) && c1 == (Cpu {
            reg: (Register { p: asl_spec(mv, p0).1, ..c0.reg }),
            ..c0
        }))
    }))
    &&& (o == OpCodes::LSR ==> ({
        &&& (m == AddrModes::ACM ==> b1 == b0 && c1 == (Cpu {
            reg: (Register { a: lsr_spec(a0, p0).0, p: lsr_spec(a0, p0).1, ..c0.reg }),
            ..c0
        }))
        &&& (m != AddrModes::ACM && fop.data < 0x2000 ==> b1.wram.data@ == wram0.update(
            midx,
            lsr_spec(mv, p0).0,
        ) && b1 == (Bus { wram: b1.wram, ..b0 }) && c1 == (Cpu {
            reg: (Register { p: lsr_spec(mv, p0).1, ..c0.reg }),
            ..c0
        }))
    }))
    &&& (o == OpCodes::ROL ==> ({
        &&& (m == AddrModes::ACM ==> b1 == b0 && c1 == (Cpu {
            reg: (Register { a: rol_spec(a0, p0).0, p: rol_spec(a0, p0).1, ..c0.reg }),
            ..c0
        }))
        &&& (m != AddrModes::ACM && fop.data < 0x2000 ==> b1.wram.data@ == wram0.update(
            midx,
            rol_spec(mv, p0).0,
        ) && b1 == (Bus { wram: b1.wram, ..b0 }) && c1 == (Cpu {
            reg: (Register { p: rol_spec(mv, p0).1, ..c0.reg }),
            ..c0
        }))
    }))
    &&& (o == OpCodes::ROR ==> ({
        &&& (m == AddrModes::ACM ==> b1 == b0 && c1 == (Cpu {
            reg: (Register { a: ror_spec(a0, p0).0, p: ror_spec(a0, p0).1, ..c0.reg }),
            ..c0
        }))
        &&& (m != AddrModes::ACM && fop.data < 0x2000 ==> b1.wram.data@ == wram0.update(
            midx,
            ror_spec(mv, p0).0,
        ) && b1 == (Bus { wram: b1.wram, ..b0 }) && c1 == (Cpu {
            reg: (Register { p: ror_spec(mv, p0).1, ..c0.reg }),
            ..c0
        }))
    }))
    // memory increment and decrement
    &&& (o == OpCodes::INC && fop.data < 0x2000 ==> ({
        let v2 = ((mv + 1) % 0x100) as u8;
        b1.wram.data@ == wram0.update(midx, v2) && b1 == (Bus { wram: b1.wram, ..b0 }) && c1
            == (Cpu { reg: (Register { p: flags_zn(p0, v2), ..c0.reg }), ..c0 })
    }))
    &&& (o == OpCodes::DEC && fop.data < 0x2000 ==> ({
        let v2 = ((mv + 0xFF) % 0x100) as u8;
        b1.wram.data@ == wram0.update(midx, v2) && b1 == (Bus { wram: b1.wram, ..b0 }) && c1
            == (Cpu { reg: (Register { p: flags_zn(p0, v2), ..c0.reg }), ..c0 })
    }))
    // register increment and decrement
    &&& (o == OpCodes::INX ==> b1 == b0 && c1 == (Cpu {
        reg: (Register {
            x: ((x0 + 1) % 0x100) as u8,
            p: flags_zn(p0, ((x0 + 1) % 0x100) as u8),
            ..c0.reg
        }),
        ..c0
    }))
    &&& (o == OpCodes::INY ==> b1 == b0 && c1 == (Cpu {
        reg: (Register {
            y: ((y0 + 1) % 0x100) as u8,
            p: flags_zn(p0, ((y0 + 1) % 0x100) as u8),
            ..c0.reg
        }),
        ..c0
    }))
    &&& (o == OpCodes::DEX ==> b1 == b0 && c1 == (Cpu {
        reg: (Register {
            x: ((x0 + 0xFF) % 0x100) as u8,
            p: flags_zn(p0, ((x0 + 0xFF) % 0x100) as u8),
            ..c0.reg
        }),
        ..c0
    }))
    &&& (o == OpCodes::DEY ==> b1 == b0 && c1 == (Cpu {
        reg: (Register {
            y: ((y0 + 0xFF) % 0x100) as u8,
            p: flags_zn(p0, ((y0 + 0xFF) % 0x100) as u8),
            ..c0.reg
        }),
        ..c0
    }))
    // flag control
    &&& (o == OpCodes::CLC ==> b1 == b0 && c1 == (Cpu {
        reg: (Register { p: p0 & 0xFE, ..c0.reg }),
        ..c0
    }))
    &&& (o == OpCodes::SEC ==> b1 == b0 && c1 == (Cpu {
        reg: (Register { p: p0 | CARRY, ..c0.reg }),
        ..c0
    }))
    &&& (o == OpCodes::CLI ==> b1 == b0 && c1 == (Cpu {
        reg: (Register { p: p0 & 0xFB, ..c0.reg }),
        ..c0
    }))
    &&& (o == OpCodes::SEI ==> b1 == b0 && c1 == (Cpu {
        reg: (Register { p: p0 | INTERRUPT, ..c0.reg }),
        ..c0
    }))
    &&& (o == OpCodes::CLD ==> b1 == b0 && c1 == (Cpu {
        reg: (Register { p: p0 & 0xF7, ..c0.reg }),
        ..c0
    }))
    &&& (o == OpCodes::SED ==> b1 == b0 && c1 == (Cpu {
        reg: (Register { p: p0 | DECIMAL, ..c0.reg }),
        ..c0
    }))
    &&& (o == OpCodes::CLV ==> b1 == b0 && c1 == (Cpu {
        reg: (Register { p: p0 & 0xBF, ..c0.reg }),
        ..c0
    }))
    // loads
    &&& (o == OpCodes::LDA ==> c1.reg.x == x0 && c1.reg.y == y0 && c1.reg.sp == sp0
        && c1.reg.pc == pc0 && zn_agree(c1.reg.p, c1.reg.a) && (m == AddrModes::IMD ==> b1
        == b0 && c1 == (Cpu {
        reg: (Register { a: d8, p: flags_zn(p0, d8), ..c0.reg }),
        ..c0
    })) && (m != AddrModes::IMD && fop.data < 0x2000 ==> b1 == b0 && c1 == (Cpu {
        reg: (Register { a: mv, p: flags_zn(p0, mv), ..c0.reg }),
        ..c0
    })))
    &&& (o == OpCodes::LDX ==> c1.reg.a == a0 && c1.reg.y == y0 && c1.reg.sp == sp0
        && c1.reg.pc == pc0 && zn_agree(c1.reg.p, c1.reg.x) && (m == AddrModes::IMD ==> b1
        == b0 && c1 == (Cpu {
        reg: (Register { x: d8, p: flags_zn(p0, d8), ..c0.reg }),
        ..c0
    })) && (m != AddrModes::IMD && fop.data < 0x2000 ==> b1 == b0 && c1 == (Cpu {
        reg: (Register { x: mv, p: flags_zn(p0, mv), ..c0.reg }),
        ..c0
    })))
    &&& (o == OpCodes::LDY ==> c1.reg.a == a0 && c1.reg.x == x0 && c1.reg.sp == sp0
        && c1.reg.pc == pc0 && zn_agree(c1.reg.p, c1.reg.y) && (m == AddrModes::IMD ==> b1
        == b0 && c1 == (Cpu {
        reg: (Register { y: d8, p: flags_zn(p0, d8), ..c0.reg }),
        ..c0
    })) && (m != AddrModes::IMD && fop.data < 0x2000 ==> b1 == b0 && c1 == (Cpu {
        reg: (Register { y: mv, p: flags_zn(p0, mv), ..c0.reg }),
        ..c0
    })))
    // stores
    &&& (o == OpCodes::STA ==> c1.reg == c0.reg && (fop.data < 0x2000 ==> b1.wram.data@
        == wram0.update(midx, a0) && b1 == (Bus { wram: b1.wram, ..b0 }) && c1 == c0))
    &&& (o == OpCodes::STX ==> c1.reg == c0.reg && (fop.data < 0x2000 ==> b1.wram.data@
        == wram0.update(midx, x0) && b1 == (Bus { wram: b1.wram, ..b0 }) && c1 == c0))
    &&& (o == OpCodes::STY ==> c1.reg == c0.reg && (fop.data < 0x2000 ==> b1.wram.data@
        == wram0.update(midx, y0) && b1 == (Bus { wram: b1.wram, ..b0 }) && c1 == c0))
    // transfers
    &&& (o == OpCodes::TAX ==> b1 == b0 && c1 == (Cpu {
        reg: (Register { x: a0, p: flags_zn(p0, a0), ..c0.reg }),
        ..c0
    }))
    &&& (o == OpCodes::TAY ==> b1 == b0 && c1 == (Cpu {
        reg: (Register { y: a0, p: flags_zn(p0, a0), ..c0.reg }),
        ..c0
    }))
    &&& (o == OpCodes::TSX ==> b1 == b0 && c1 == (Cpu {
        reg: (Register { x: sp0, p: flags_zn(p0, sp0), ..c0.reg }),
        ..c0
    }))
    &&& (o == OpCodes::TXA ==> b1 == b0 && c1 == (Cpu {
        reg: (Register { a: x0, p: flags_zn(p0, x0), ..c0.reg }),
        ..c0
    }))
    &&& (o == OpCodes::TXS ==> b1 == b0 && c1 == (Cpu {
        reg: (Register { sp: x0, ..c0.reg }),
        ..c0
    }))
    &&& (o == OpCodes::TYA ==> b1 == b0 && c1 == (Cpu {
        reg: (Register { a: y0, p: flags_zn(p0, y0), ..c0.reg }),
        ..c0
    }))
    // stack
    &&& (o == OpCodes::PHA ==> b1.wram.data@ == wram0.update(0x100 + sp0, a0) && b1 == (Bus {
        wram: b1.wram,
        ..b0
    }) && c1 == (Cpu {
        reg: (Register { sp: ((sp0 + 0xFF) % 0x100) as u8, ..c0.reg }),
        ..c0
    }))
    &&& (o == OpCodes::PHP ==> b1.wram.data@ == wram0.update(0x100 + sp0, p0 | BREAK) && b1
        == (Bus { wram: b1.wram, ..b0 }) && c1 == (Cpu {
        reg: (Register { sp: ((sp0 + 0xFF) % 0x100) as u8, ..c0.reg }),
        ..c0
    }))
    &&& (o == OpCodes::PLA ==> ({
        let v = wram0[0x100 + ((sp0 + 1) % 0x100)];
        b1 == b0 && c1 == (Cpu {
            reg: (Register {
                a: v,
                sp: ((sp0 + 1) % 0x100) as u8,
                p: flags_zn(p0, v),
                ..c0.reg
            }),
            ..c0
        })
    }))
    &&& (o == OpCodes::PLP ==> ({
        let v = wram0[0x100 + ((sp0 + 1) % 0x100)];
        &&& b1 == b0
        &&& c1 == (Cpu {
            reg: (Register {
                sp: ((sp0 + 1) % 0x100) as u8,
                p: plp_spec(v, p0),
                ..c0.reg
            }),
            ..c0
        })
        &&& c1.reg.p & RESERVED != 0
    }))
    // no-ops, including the one- and two-byte-operand unofficial forms
    &&& (o == OpCodes::NOP ==> b1 == b0 && c1 == c0)
    &&& (o == OpCodes::NOPD ==> b1 == b0 && c1 == (Cpu {
        reg: (Register { pc: ((pc0 + 1) % 0x10000) as u16, ..c0.reg }),
        ..c0
    }))
    &&& (o == OpCodes::NOPI ==> b1 == b0 && c1 == (Cpu {
        reg: (Register { pc: ((pc0 + 2) % 0x10000) as u16, ..c0.reg }),
        ..c0
    }))
    // unofficial composites
    &&& (o == OpCodes::LAX ==> c1.reg.y == y0 && c1.reg.sp == sp0 && c1.reg.pc == pc0
        && c1.reg.a == c1.reg.x && zn_agree(c1.reg.p, c1.reg.a) && (fop.data < 0x2000 ==> b1
        == b0 && c1 == (Cpu {
        reg: (Register { a: mv, x: mv, p: flags_zn(p0, mv), ..c0.reg }),
        ..c0
    })))
    &&& (o == OpCodes::SAX ==> c1.reg == c0.reg && (fop.data < 0x2000 ==> b1.wram.data@
        == wram0.update(midx, a0 & x0) && b1 == (Bus { wram: b1.wram, ..b0 }) && c1 == c0))
    &&& (o == OpCodes::DCP ==> c1.reg == (Register { p: c1.reg.p, ..c0.reg }) && (fop.data
        < 0x2000 ==> ({
        let v2 = ((mv + 0xFF) % 0x100) as u8;
        b1.wram.data@ == wram0.update(midx, v2) && b1 == (Bus { wram: b1.wram, ..b0 }) && c1
            == (Cpu { reg: (Register { p: cmp_spec(a0, v2, p0), ..c0.reg }), ..c0 })
    })))
    &&& (o == OpCodes::ISB ==> c1.reg.x == x0 && c1.reg.y == y0 && c1.reg.sp == sp0
        && c1.reg.pc == pc0 && (exists|dd: u8| (c1.reg.a, c1.reg.p) == sbc_spec(a0, dd, p0))
        && (fop.data < 0x2000 ==> ({
        let v2 = ((mv + 1) % 0x100) as u8;
        &&& b1.wram.data@ == wram0.update(midx, v2)
        &&& b1 == (Bus { wram: b1.wram, ..b0 })
        &&& c1 == (Cpu {
            reg: (Register {
                a: sbc_spec(a0, v2, p0).0,
                p: sbc_spec(a0, v2, p0).1,
                ..c0.reg
            }),
            ..c0
        })
    })))
    &&& (o == OpCodes::SLO ==> c1.reg.x == x0 && c1.reg.y == y0 && c1.reg.sp == sp0
        && c1.reg.pc == pc0 && zn_agree(c1.reg.p, c1.reg.a) && (fop.data < 0x2000 ==> ({
        let v2 = asl_spec(mv, p0).0;
        &&& b1.wram.data@ == wram0.update(midx, v2)
        &&& b1 == (Bus { wram: b1.wram, ..b0 })
        &&& c1 == (Cpu {
            reg: (Register {
                a: (v2 | a0) as u8,
                p: flags_zn(asl_spec(mv, p0).1, (v2 | a0) as u8),
                ..c0.reg
            }),
            ..c0
        })
    })))
    &&& (o == OpCodes::RLA ==> c1.reg.x == x0 && c1.reg.y == y0 && c1.reg.sp == sp0
        && c1.reg.pc == pc0 && zn_agree(c1.reg.p, c1.reg.a) && (fop.data < 0x2000 ==> ({
        let v2 = rol_spec(mv, p0).0;
        &&& b1.wram.data@ == wram0.update(midx, v2)
        &&& b1 == (Bus { wram: b1.wram, ..b0 })
        &&& c1 == (Cpu {
            reg: (Register {
                a: (v2 & a0) as u8,
                p: flags_zn(rol_spec(mv, p0).1, (v2 & a0) as u8),
                ..c0.reg
            }),
            ..c0
        })
    })))
    &&& (o == OpCodes::SRE ==> c1.reg.x == x0 && c1.reg.y == y0 && c1.reg.sp == sp0
        && c1.reg.pc == pc0 && zn_agree(c1.reg.p, c1.reg.a) && (fop.data < 0x2000 ==> ({
        let v2 = lsr_spec(mv, p0).0;
        &&& b1.wram.data@ == wram0.update(midx, v2)
        &&& b1 == (Bus { wram: b1.wram, ..b0 })
        &&& c1 == (Cpu {
            reg: (Register {
                a: (a0 ^ v2) as u8,
                p: flags_zn(lsr_spec(mv, p0).1, (a0 ^ v2) as u8),
                ..c0.reg
            }),
            ..c0
        })
    })))
    &&& (o == OpCodes::RRA ==> c1.reg.x == x0 && c1.reg.y == y0 && c1.reg.sp == sp0
        && c1.reg.pc == pc0 && (exists|dd: u8, pp: u8| (c1.reg.a, c1.reg.p) == adc_spec(
        a0,
        dd,
        pp,
    )) && (fop.data < 0x2000 ==> ({
        let v2 = ror_spec(mv, p0).0;
        &&& b1.wram.data@ == wram0.update(midx, v2)
        &&& b1 == (Bus { wram: b1.wram, ..b0 })
        &&& c1 == (Cpu {
            reg: (Register {
                a: adc_spec(a0, v2, ror_spec(mv, p0).1).0,
                p: adc_spec(a0, v2, ror_spec(mv, p0).1).1,
                ..c0.reg
            }),
            ..c0
        })
    })))
}


/// How NMI polling relates the machine before and after: with the line
/// deasserted nothing changes; with it asserted the line is acknowledged,
/// the program counter and the status (Break cleared) are pushed,
/// InterruptDisable is raised and the program counter is loaded from the
/// vector at 0xFFFA.
pub open spec fn nmi_polled(c0: Cpu, b0: Bus, c1: Cpu, b1: Bus) -> bool {
    &&& b1.wf()
    &&& (!b0.interrupts.nmi ==> c1 == c0 && b1 == b0)
    &&& (b0.interrupts.nmi ==> ({
        let sp0 = c0.reg.sp;
        let pc0 = c0.reg.pc;
        &&& !b1.interrupts.nmi
        &&& b1.interrupts.irq == b0.interrupts.irq
        &&& b1.wram.data@ == b0.wram.data@.update(0x100 + sp0, (pc0 >> 8u16) as u8).update(
            0x100 + ((sp0 + 0xFF) % 0x100),
            (pc0 & 0xFF) as u8,
        ).update(0x100 + ((sp0 + 0xFE) % 0x100), c0.reg.p & 0xEF)
        &&& b1 == (Bus { wram: b1.wram, interrupts: b1.interrupts, ..b0 })
        &&& c1 == (Cpu {
            reg: (Register {
                pc: prog_word(b0.cas, 0xFFFA) as u16,
                sp: ((sp0 + 0xFD) % 0x100) as u8,
                p: (c0.reg.p & 0xEF) | INTERRUPT,
                ..c0.reg
            }),
            ..c0
        })
    }))
}

/// How IRQ polling relates the machine before and after: held off when the
/// line is clear or InterruptDisable is set, otherwise the same entry
/// sequence as NMI through the vector at 0xFFFE.
pub open spec fn irq_polled(c0: Cpu, b0: Bus, c1: Cpu, b1: Bus) -> bool {
    &&& b1.wf()
    &&& (!b0.interrupts.irq || c0.reg.p & INTERRUPT != 0 ==> c1 == c0 && b1 == b0)
    &&& (b0.interrupts.irq && c0.reg.p & INTERRUPT == 0 ==> ({
        let sp0 = c0.reg.sp;
        let pc0 = c0.reg.pc;
        &&& !b1.interrupts.irq
        &&& b1.interrupts.nmi == b0.interrupts.nmi
        &&& b1.wram.data@ == b0.wram.data@.update(0x100 + sp0, (pc0 >> 8u16) as u8).update(
            0x100 + ((sp0 + 0xFF) % 0x100),
            (pc0 & 0xFF) as u8,
        ).update(0x100 + ((sp0 + 0xFE) % 0x100), c0.reg.p & 0xEF)
        &&& b1 == (Bus { wram: b1.wram, interrupts: b1.interrupts, ..b0 })
        &&& c1 == (Cpu {
            reg: (Register {
                pc: prog_word(b0.cas, 0xFFFE) as u16,
                sp: ((sp0 + 0xFD) % 0x100) as u8,
                p: (c0.reg.p & 0xEF) | INTERRUPT,
                ..c0.reg
            }),
            ..c0
        })
    }))
}

/// How one fetch-decode relates the machine before and after: only the
/// program counter (and, for operand reads with side effects, the bus and
/// controller cursors) moves; a decoded instruction matches its table entry;
/// and for a program counter in plain memory the decode is exact
/// (`fetch_exact`) and fails exactly on a byte without a table entry.
pub open spec fn fetch_rel(
    c0: Cpu,
    b0: Bus,
    c1: Cpu,
    b1: Bus,
    r: Result<FetchedOp, EmuError>,
) -> bool {
    &&& b1.wf()
    &&& c1 == (Cpu {
        reg: (Register { pc: c1.reg.pc, ..c0.reg }),
        keypad1: c1.keypad1,
        keypad2: c1.keypad2,
        ..c0
    })
    &&& b1.cas == b0.cas
    &&& ppu_timing_kept(b0, b1)
    &&& (r matches Ok(f) ==> op_table_spec(f.index) == Some(f.op))
    &&& (r matches Ok(f) ==> f.add_cycle <= 1 && 2 <= f.op.cycle <= 8)
    &&& (fetch_window(c0.reg.pc) ==> ({
        let opc = cpu_plain_byte(b0, c0.reg.pc as int);
        &&& (op_table_spec(opc) is None ==> r == Err::<FetchedOp, EmuError>(
            EmuError::UnknownOpcode { opcode: opc, pc: c0.reg.pc },
        ))
        &&& (op_table_spec(opc) is Some ==> (r matches Ok(f) && f.index == opc
            && op_table_spec(opc) == Some(f.op) && fetch_exact(c0, b0, f, c1) && ((f.op.mode
            != AddrModes::ABSIND || plain_addr(cpu_plain_word(b0, c0.reg.pc + 1))) ==> b1
            == b0 && c1.keypad1 == c0.keypad1 && c1.keypad2 == c0.keypad2)))
    }))
}

/// How one full CPU step relates the machine before and after: interrupts
/// are polled first (NMI, then IRQ), one instruction is fetched and, on
/// success, executed, and the returned cycle count is the table's base plus
/// the page-crossing penalty plus one for a taken branch.
pub open spec fn run_rel(c0: Cpu, b0: Bus, c1: Cpu, b1: Bus, r: Result<u64, EmuError>) -> bool {
    exists|ca: Cpu, ba: Bus, cb: Cpu, bb: Bus|
        #![auto]
        {
            &&& nmi_polled((Cpu { has_branched: false, ..c0 }), b0, ca, ba)
            &&& irq_polled(ca, ba, cb, bb)
            &&& (match r {
                Result::Err(e) => fetch_rel(cb, bb, c1, b1, Err(e)),
                Result::Ok(c) => exists|cc: Cpu, bc: Bus, f: FetchedOp, cd: Cpu|
                    #![auto]
                    {
                        &&& fetch_rel(cb, bb, cc, bc, Ok(f))
                        &&& exec_rel(cc, bc, f, cd, b1)
                        &&& c == f.op.cycle + f.add_cycle + (if cd.has_branched {
                            1int
                        } else {
                            0int
                        })
                        &&& c1 == (Cpu {
                            cycle: (c0.cycle + c) as u64,
                            index: (c0.index + 1) as u64,
                            ..cd
                        })
                    },
            })
        }
}

impl Cpu {
    /// The operand byte: immediate from the decoded data, otherwise a bus
    /// read at the resolved address.
    fn operand(&mut self, bus: &mut Bus, fop: &FetchedOp) -> (r: u8)
        requires
            old(bus).wf(),
        ensures
            final(bus).wf(),
            final(self).reg == old(self).reg,
            final(self).index == old(self).index,
            final(self).cycle == old(self).cycle,
            final(self).has_branched == old(self).has_branched,
            final(self).mapper == old(self).mapper,
            final(bus).cas == old(bus).cas,
            final(bus).wram == old(bus).wram,
            ppu_timing_kept(*old(bus), *final(bus)),
            fop.op.mode == AddrModes::IMD ==> r == (fop.data & 0xFF) as u8 && *final(bus)
                == *old(bus) && *final(self) == *old(self),
            fop.op.mode != AddrModes::IMD && fop.data < 0x2000 ==> r == old(bus).wram.data@[fop.data as int % 0x800] && *final(bus) == *old(bus)
                && *final(self) == *old(self),
    {
        if fop.op.mode == AddrModes::IMD {
            (fop.data & 0xFF) as u8
        } else {
            self.read(bus, fop.data)
        }
    }

    /// Arithmetic, logic, compare, bit-test and load instructions.
    #[verifier::rlimit(100)]
    fn exec_alu(&mut self, bus: &mut Bus, fop: &FetchedOp)
        requires
            old(bus).wf(),
            fop.op.opcode == OpCodes::ADC || fop.op.opcode == OpCodes::SBC || fop.op.opcode
                == OpCodes::AND || fop.op.opcode == OpCodes::ORA || fop.op.opcode
                == OpCodes::EOR || fop.op.opcode == OpCodes::CMP || fop.op.opcode
                == OpCodes::CPX || fop.op.opcode == OpCodes::CPY || fop.op.opcode
                == OpCodes::BIT || fop.op.opcode == OpCodes::LDA || fop.op.opcode
                == OpCodes::LDX || fop.op.opcode == OpCodes::LDY,
        ensures
            final(bus).wf(),
            exec_rel(*old(self), *old(bus), *fop, *final(self), *final(bus)),
    {
        broadcast use lemma_zn_flags;

        if fop.op.opcode == OpCodes::BIT {
            let d = self.read(bus, fop.data);
            self.reg.p = alu_bit(d, self.reg.a, self.reg.p);
            return;
        }
        let d = self.operand(bus, fop);
        if fop.op.opcode == OpCodes::ADC {
            let (r8, p2) = alu_adc(self.reg.a, d, self.reg.p);
            self.reg.a = r8;
            self.reg.p = p2;
        } else if fop.op.opcode == OpCodes::SBC {
            let (r8, p2) = alu_sbc(self.reg.a, d, self.reg.p);
            self.reg.a = r8;
            self.reg.p = p2;
        } else if fop.op.opcode == OpCodes::AND {
            self.reg.a = self.reg.a & d;
            let v = self.reg.a;
            self.set_flag_after_calc(v);
        } else if fop.op.opcode == OpCodes::ORA {
            self.reg.a = self.reg.a | d;
            let v = self.reg.a;
            self.set_flag_after_calc(v);
        } else if fop.op.opcode == OpCodes::EOR {
            self.reg.a = self.reg.a ^ d;
            let v = self.reg.a;
            self.set_flag_after_calc(v);
        } else if fop.op.opcode == OpCodes::CMP {
            self.reg.p = alu_cmp(self.reg.a, d, self.reg.p);
        } else if fop.op.opcode == OpCodes::CPX {
            self.reg.p = alu_cmp(self.reg.x, d, self.reg.p);
        } else if fop.op.opcode == OpCodes::CPY {
            self.reg.p = alu_cmp(self.reg.y, d, self.reg.p);
        } else if fop.op.opcode == OpCodes::LDA {
            self.reg.a = d;
            self.set_flag_after_calc(d);
        } else if fop.op.opcode == OpCodes::LDX {
            self.reg.x = d;
            self.set_flag_after_calc(d);
        } else {
            self.reg.y = d;
            self.set_flag_after_calc(d);
        }
    }

    /// Shift and rotate instructions, on the accumulator or on memory.
    #[verifier::rlimit(100)]
    fn exec_shift(&mut self, bus: &mut Bus, fop: &FetchedOp)
        requires
            old(bus).wf(),
            fop.op.opcode == OpCodes::ASL || fop.op.opcode == OpCodes::LSR || fop.op.opcode
                == OpCodes::ROL || fop.op.opcode == OpCodes::ROR,
        ensures
            final(bus).wf(),
            exec_rel(*old(self), *old(bus), *fop, *final(self), *final(bus)),
    {
        let d = if fop.op.mode == AddrModes::ACM {
            self.reg.a
        } else {
            self.read(bus, fop.data)
        };
        let (r8, p2) = if fop.op.opcode == OpCodes::ASL {
            alu_asl(d, self.reg.p)
        } else if fop.op.opcode == OpCodes::LSR {
            alu_lsr(d, self.reg.p)
        } else if fop.op.opcode == OpCodes::ROL {
            alu_rol(d, self.reg.p)
        } else {
            alu_ror(d, self.reg.p)
        };
        if fop.op.mode == AddrModes::ACM {
            self.reg.a = r8;
        } else {
            self.write(bus, fop.data, r8);
        }
        self.reg.p = p2;
    }

    /// Conditional branches: redirect the program counter to the decoded
    /// target exactly when the tested flag matches.
    fn exec_branch(&mut self, bus: &mut Bus, fop: &FetchedOp)
        requires
            old(bus).wf(),
            is_cond_branch(fop.op.opcode),
        ensures
            final(bus).wf(),
            exec_rel(*old(self), *old(bus), *fop, *final(self), *final(bus)),
    {
        let taken: bool = if fop.op.opcode == OpCodes::BCS {
            self.reg.p & CARRY != 0
        } else if fop.op.opcode == OpCodes::BCC {
            self.reg.p & CARRY == 0
        } else if fop.op.opcode == OpCodes::BEQ {
            self.reg.p & ZERO != 0
        } else if fop.op.opcode == OpCodes::BNE {
            self.reg.p & ZERO == 0
        } else if fop.op.opcode == OpCodes::BMI {
            self.reg.p & NEGATIVE != 0
        } else if fop.op.opcode == OpCodes::BPL {
            self.reg.p & NEGATIVE == 0
        } else if fop.op.opcode == OpCodes::BVS {
            self.reg.p & OVERFLOW != 0
        } else {
            self.reg.p & OVERFLOW == 0
        };
        if taken {
            self.branch(fop.data);
        }
    }

    /// JMP and RTS.
    #[verifier::rlimit(100)]
    fn exec_jump(&mut self, bus: &mut Bus, fop: &FetchedOp)
        requires
            old(bus).wf(),
            fop.op.opcode == OpCodes::JMP || fop.op.opcode == OpCodes::RTS,
        ensures
            final(bus).wf(),
            exec_rel(*old(self), *old(bus), *fop, *final(self), *final(bus)),
    {
        if fop.op.opcode == OpCodes::JMP {
            self.reg.pc = fop.data;
        } else {
            self.pop_pc(bus);
            self.reg.pc = ((self.reg.pc as u32 + 1) % 0x10000) as u16;
        }
    }

    /// JSR: push the address of the instruction's last byte, then jump.
    #[verifier::rlimit(100)]
    fn exec_jsr(&mut self, bus: &mut Bus, fop: &FetchedOp)
        requires
            old(bus).wf(),
            fop.op.opcode == OpCodes::JSR,
        ensures
            final(bus).wf(),
            exec_rel(*old(self), *old(bus), *fop, *final(self), *final(bus)),
    {
        let t: u16 = ((self.reg.pc as u32 + 0xFFFF) % 0x10000) as u16;
        self.push(bus, (t >> 8u16) as u8);
        self.push(bus, (t & 0xFF) as u8);
        proof {
            assert(bus.wram.data@ == old(bus).wram.data@.update(
                0x100 + old(self).reg.sp,
                (t >> 8u16) as u8,
            ).update(0x100 + ((old(self).reg.sp + 0xFF) % 0x100), (t & 0xFF) as u8));
            assert(self.reg.sp == ((old(self).reg.sp + 0xFE) % 0x100) as u8);
        }
        self.reg.pc = fop.data;
    }

    /// BRK: push the incremented program counter and the status with Break
    /// set, raise InterruptDisable, and jump through the vector at 0xFFFE.
    #[verifier::rlimit(100)]
    fn exec_brk(&mut self, bus: &mut Bus, fop: &FetchedOp)
        requires
            old(bus).wf(),
            fop.op.opcode == OpCodes::BRK,
        ensures
            final(bus).wf(),
            exec_rel(*old(self), *old(bus), *fop, *final(self), *final(bus)),
    {
        let t: u16 = ((self.reg.pc as u32 + 1) % 0x10000) as u16;
        self.reg.pc = t;
        self.push_pc(bus);
        let v = self.reg.p | BREAK;
        self.push(bus, v);
        proof {
            let sp0 = old(self).reg.sp;
            assert((((sp0 + 0xFE) % 0x100) + 0xFF) % 0x100 == (sp0 + 0xFD) % 0x100);
            assert(bus.wram.data@ == old(bus).wram.data@.update(
                0x100 + sp0,
                (t >> 8u16) as u8,
            ).update(0x100 + ((sp0 + 0xFF) % 0x100), (t & 0xFF) as u8).update(
                0x100 + ((sp0 + 0xFE) % 0x100),
                old(self).reg.p | BREAK,
            ));
            assert(self.reg.sp == ((sp0 + 0xFD) % 0x100) as u8);
        }
        self.reg.p = self.reg.p | INTERRUPT;
        let target = self.wread(bus, 0xFFFE);
        self.reg.pc = target;
    }

    /// RTI: pull the status (Break kept from before the pull, Reserved
    /// forced on) and then the program counter.
    #[verifier::rlimit(100)]
    fn exec_rti(&mut self, bus: &mut Bus, fop: &FetchedOp)
        requires
            old(bus).wf(),
            fop.op.opcode == OpCodes::RTI,
        ensures
            final(bus).wf(),
            exec_rel(*old(self), *old(bus), *fop, *final(self), *final(bus)),
    {
        let was_break = self.reg.p & BREAK != 0;
        let pulled = self.pop(bus);
        let v1 = if was_break {
            pulled | BREAK
        } else {
            pulled & 0xEF
        };
        self.reg.p = v1 | RESERVED;
        proof {
            assert((v1 | RESERVED) & RESERVED != 0) by (bit_vector);
            assert(self.reg.p == plp_spec(pulled, old(self).reg.p));
        }
        self.pop_pc(bus);
        proof {
            let sp0 = old(self).reg.sp;
            let wram0 = old(bus).wram.data@;
            assert((((sp0 + 1) % 0x100) + 2) % 0x100 == (sp0 + 3) % 0x100);
            assert(self.reg.sp == ((sp0 + 3) % 0x100) as u8);
            assert(*bus == *old(bus));
            assert(self.reg.pc == wram0[0x100 + ((sp0 + 2) % 0x100)] + 256 * wram0[0x100 + (
            (sp0 + 3) % 0x100)]);
        }
    }

    /// Increments and decrements, on memory or on the index registers.
    #[verifier::rlimit(100)]
    fn exec_incdec(&mut self, bus: &mut Bus, fop: &FetchedOp)
        requires
            old(bus).wf(),
            fop.op.opcode == OpCodes::INC || fop.op.opcode == OpCodes::DEC || fop.op.opcode
                == OpCodes::INX || fop.op.opcode == OpCodes::INY || fop.op.opcode
                == OpCodes::DEX || fop.op.opcode == OpCodes::DEY,
        ensures
            final(bus).wf(),
            exec_rel(*old(self), *old(bus), *fop, *final(self), *final(bus)),
    {
        if fop.op.opcode == OpCodes::INC {
            let v = self.read(bus, fop.data);
            let v2: u8 = ((v as u16 + 1) % 0x100) as u8;
            self.write(bus, fop.data, v2);
            self.set_flag_after_calc(v2);
        } else if fop.op.opcode == OpCodes::DEC {
            let v = self.read(bus, fop.data);
            let v2: u8 = ((v as u16 + 0xFF) % 0x100) as u8;
            self.write(bus, fop.data, v2);
            self.set_flag_after_calc(v2);
        } else if fop.op.opcode == OpCodes::INX {
            let v2: u8 = ((self.reg.x as u16 + 1) % 0x100) as u8;
            self.reg.x = v2;
            self.set_flag_after_calc(v2);
        } else if fop.op.opcode == OpCodes::INY {
            let v2: u8 = ((self.reg.y as u16 + 1) % 0x100) as u8;
            self.reg.y = v2;
            self.set_flag_after_calc(v2);
        } else if fop.op.opcode == OpCodes::DEX {
            let v2: u8 = ((self.reg.x as u16 + 0xFF) % 0x100) as u8;
            self.reg.x = v2;
            self.set_flag_after_calc(v2);
        } else {
            let v2: u8 = ((self.reg.y as u16 + 0xFF) % 0x100) as u8;
            self.reg.y = v2;
            self.set_flag_after_calc(v2);
        }
    }

    /// Flag-control and register-transfer instructions.
    fn exec_flag_transfer(&mut self, bus: &mut Bus, fop: &FetchedOp)
        requires
            old(bus).wf(),
            fop.op.opcode == OpCodes::CLC || fop.op.opcode == OpCodes::SEC || fop.op.opcode
                == OpCodes::CLI || fop.op.opcode == OpCodes::SEI || fop.op.opcode
                == OpCodes::CLD || fop.op.opcode == OpCodes::SED || fop.op.opcode
                == OpCodes::CLV || fop.op.opcode == OpCodes::TAX || fop.op.opcode
                == OpCodes::TAY || fop.op.opcode == OpCodes::TSX || fop.op.opcode
                == OpCodes::TXA || fop.op.opcode == OpCodes::TXS || fop.op.opcode
                == OpCodes::TYA,
        ensures
            final(bus).wf(),
            exec_rel(*old(self), *old(bus), *fop, *final(self), *final(bus)),
    {
        if fop.op.opcode == OpCodes::CLC {
            self.reg.p = self.reg.p & 0xFE;
        } else if fop.op.opcode == OpCodes::SEC {
            self.reg.p = self.reg.p | CARRY;
        } else if fop.op.opcode == OpCodes::CLI {
            self.reg.p = self.reg.p & 0xFB;
        } else if fop.op.opcode == OpCodes::SEI {
            self.reg.p = self.reg.p | INTERRUPT;
        } else if fop.op.opcode == OpCodes::CLD {
            self.reg.p = self.reg.p & 0xF7;
        } else if fop.op.opcode == OpCodes::SED {
            self.reg.p = self.reg.p | DECIMAL;
        } else if fop.op.opcode == OpCodes::CLV {
            self.reg.p = self.reg.p & 0xBF;
        } else if fop.op.opcode == OpCodes::TAX {
            let v = self.reg.a;
            self.reg.x = v;
            self.set_flag_after_calc(v);
        } else if fop.op.opcode == OpCodes::TAY {
            let v = self.reg.a;
            self.reg.y = v;
            self.set_flag_after_calc(v);
        } else if fop.op.opcode == OpCodes::TSX {
            let v = self.reg.sp;
            self.reg.x = v;
            self.set_flag_after_calc(v);
        } else if fop.op.opcode == OpCodes::TXA {
            let v = self.reg.x;
            self.reg.a = v;
            self.set_flag_after_calc(v);
        } else if fop.op.opcode == OpCodes::TXS {
            self.reg.sp = self.reg.x;
        } else {
            let v = self.reg.y;
            self.reg.a = v;
            self.set_flag_after_calc(v);
        }
    }

    /// Stores.
    #[verifier::rlimit(100)]
    fn exec_store(&mut self, bus: &mut Bus, fop: &FetchedOp)
        requires
            old(bus).wf(),
            fop.op.opcode == OpCodes::STA || fop.op.opcode == OpCodes::STX || fop.op.opcode
                == OpCodes::STY || fop.op.opcode == OpCodes::SAX,
        ensures
            final(bus).wf(),
            exec_rel(*old(self), *old(bus), *fop, *final(self), *final(bus)),
    {
        let v = if fop.op.opcode == OpCodes::STA {
            self.reg.a
        } else if fop.op.opcode == OpCodes::STX {
            self.reg.x
        } else if fop.op.opcode == OpCodes::STY {
            self.reg.y
        } else {
            self.reg.a & self.reg.x
        };
        self.write(bus, fop.data, v);
    }

    /// Stack push and pull instructions.
    fn exec_stack(&mut self, bus: &mut Bus, fop: &FetchedOp)
        requires
            old(bus).wf(),
            fop.op.opcode == OpCodes::PHA || fop.op.opcode == OpCodes::PHP || fop.op.opcode
                == OpCodes::PLA || fop.op.opcode == OpCodes::PLP,
        ensures
            final(bus).wf(),
            exec_rel(*old(self), *old(bus), *fop, *final(self), *final(bus)),
    {
        broadcast use lemma_zn_flags;

        if fop.op.opcode == OpCodes::PHA {
            let v = self.reg.a;
            self.push(bus, v);
        } else if fop.op.opcode == OpCodes::PHP {
            let v = self.reg.p | BREAK;
            self.push(bus, v);
        } else if fop.op.opcode == OpCodes::PLA {
            let v = self.pop(bus);
            self.reg.a = v;
            self.set_flag_after_calc(v);
        } else {
            let was_break = self.reg.p & BREAK != 0;
            let pulled = self.pop(bus);
            let v1 = if was_break {
                pulled | BREAK
            } else {
                pulled & 0xEF
            };
            self.reg.p = v1 | RESERVED;
            proof {
                assert((v1 | RESERVED) & RESERVED != 0) by (bit_vector);
            }
        }
    }

    /// The official and unofficial no-ops, including the forms that skip
    /// their unfetched operand bytes.
    fn exec_nop(&mut self, bus: &mut Bus, fop: &FetchedOp)
        requires
            old(bus).wf(),
            fop.op.opcode == OpCodes::NOP || fop.op.opcode == OpCodes::NOPD || fop.op.opcode
                == OpCodes::NOPI,
        ensures
            final(bus).wf(),
            exec_rel(*old(self), *old(bus), *fop, *final(self), *final(bus)),
    {
        if fop.op.opcode == OpCodes::NOPD {
            self.reg.pc = ((self.reg.pc as u32 + 1) % 0x10000) as u16;
        } else if fop.op.opcode == OpCodes::NOPI {
            self.reg.pc = ((self.reg.pc as u32 + 2) % 0x10000) as u16;
        }
    }

    /// The unofficial read-modify-write composites.
    #[verifier::rlimit(100)]
    fn exec_unofficial(&mut self, bus: &mut Bus, fop: &FetchedOp)
        requires
            old(bus).wf(),
            fop.op.opcode == OpCodes::LAX || fop.op.opcode == OpCodes::DCP || fop.op.opcode
                == OpCodes::ISB || fop.op.opcode == OpCodes::SLO || fop.op.opcode
                == OpCodes::RLA || fop.op.opcode == OpCodes::SRE || fop.op.opcode
                == OpCodes::RRA,
        ensures
            final(bus).wf(),
            exec_rel(*old(self), *old(bus), *fop, *final(self), *final(bus)),
    {
        broadcast use lemma_zn_flags;

        if fop.op.opcode == OpCodes::LAX {
            let v = self.read(bus, fop.data);
            self.reg.a = v;
            self.reg.x = v;
            self.set_flag_after_calc(v);
        } else if fop.op.opcode == OpCodes::DCP {
            let v = self.read(bus, fop.data);
            let v2: u8 = ((v as u16 + 0xFF) % 0x100) as u8;
            self.reg.p = alu_cmp(self.reg.a, v2, self.reg.p);
            self.write(bus, fop.data, v2);
        } else if fop.op.opcode == OpCodes::ISB {
            let v = self.read(bus, fop.data);
            let v2: u8 = ((v as u16 + 1) % 0x100) as u8;
            let (r8, p2) = alu_sbc(self.reg.a, v2, self.reg.p);
            self.reg.a = r8;
            self.reg.p = p2;
            self.write(bus, fop.data, v2);
        } else if fop.op.opcode == OpCodes::SLO {
            let v = self.read(bus, fop.data);
            let (v2, p1) = alu_asl(v, self.reg.p);
            self.reg.p = p1;
            self.reg.a = v2 | self.reg.a;
            let a1 = self.reg.a;
            self.set_flag_after_calc(a1);
            self.write(bus, fop.data, v2);
        } else if fop.op.opcode == OpCodes::RLA {
            let v = self.read(bus, fop.data);
            let (v2, p1) = alu_rol(v, self.reg.p);
            self.reg.p = p1;
            self.reg.a = v2 & self.reg.a;
            let a1 = self.reg.a;
            self.set_flag_after_calc(a1);
            self.write(bus, fop.data, v2);
        } else if fop.op.opcode == OpCodes::SRE {
            let v = self.read(bus, fop.data);
            let (v2, p1) = alu_lsr(v, self.reg.p);
            self.reg.p = p1;
            self.reg.a = self.reg.a ^ v2;
            let a1 = self.reg.a;
            self.set_flag_after_calc(a1);
            self.write(bus, fop.data, v2);
        } else {
            let v = self.read(bus, fop.data);
            let (v2, p1) = alu_ror(v, self.reg.p);
            let (r8, p2) = alu_adc(self.reg.a, v2, p1);
            self.reg.a = r8;
            self.reg.p = p2;
            self.write(bus, fop.data, v2);
        }
    }

    /// Executes one decoded instruction.
    pub fn exec(&mut self, bus: &mut Bus, fop: &FetchedOp)
        requires
            old(bus).wf(),
        ensures
            final(bus).wf(),
            exec_rel(*old(self), *old(bus), *fop, *final(self), *final(bus)),
    {
        match fop.op.opcode {
            OpCodes::ADC | OpCodes::SBC | OpCodes::AND | OpCodes::ORA | OpCodes::EOR
                | OpCodes::CMP | OpCodes::CPX | OpCodes::CPY | OpCodes::BIT | OpCodes::LDA
                | OpCodes::LDX | OpCodes::LDY => self.exec_alu(bus, fop),
            OpCodes::ASL | OpCodes::LSR | OpCodes::ROL | OpCodes::ROR => self.exec_shift(
                bus,
                fop,
            ),
            OpCodes::BCS | OpCodes::BCC | OpCodes::BEQ | OpCodes::BNE | OpCodes::BMI
                | OpCodes::BPL | OpCodes::BVS | OpCodes::BVC => self.exec_branch(bus, fop),
            OpCodes::JMP | OpCodes::RTS => self.exec_jump(bus, fop),
            OpCodes::JSR => self.exec_jsr(bus, fop),
            OpCodes::BRK => self.exec_brk(bus, fop),
            OpCodes::RTI => self.exec_rti(bus, fop),
            OpCodes::INC | OpCodes::DEC | OpCodes::INX | OpCodes::INY | OpCodes::DEX
                | OpCodes::DEY => self.exec_incdec(bus, fop),
            OpCodes::CLC | OpCodes::SEC | OpCodes::CLI | OpCodes::SEI | OpCodes::CLD
                | OpCodes::SED | OpCodes::CLV | OpCodes::TAX | OpCodes::TAY | OpCodes::TSX
                | OpCodes::TXA | OpCodes::TXS | OpCodes::TYA => self.exec_flag_transfer(
                bus,
                fop,
            ),
            OpCodes::STA | OpCodes::STX | OpCodes::STY | OpCodes::SAX => self.exec_store(
                bus,
                fop,
            ),
            OpCodes::PHA | OpCodes::PHP | OpCodes::PLA | OpCodes::PLP => self.exec_stack(
                bus,
                fop,
            ),
            OpCodes::NOP | OpCodes::NOPD | OpCodes::NOPI => self.exec_nop(bus, fop),
            OpCodes::LAX | OpCodes::DCP | OpCodes::ISB | OpCodes::SLO | OpCodes::RLA
                | OpCodes::SRE | OpCodes::RRA => self.exec_unofficial(bus, fop),
        }
    }

    /// Non-maskable interrupt entry, polled at the head of each step: when
    /// the NMI line is asserted, acknowledge it, push the program counter
    /// and the status (Break cleared), set InterruptDisable, and load the
    /// program counter from the vector at 0xFFFA.
    pub fn check_nmi(&mut self, bus: &mut Bus)
        requires
            old(bus).wf(),
        ensures
            final(bus).wf(),
            nmi_polled(*old(self), *old(bus), *final(self), *final(bus)),
    {
        if !bus.interrupts.get_nmi_assert() {
            return;
        }
        bus.interrupts.deassert_nmi();
        self.reg.p = self.reg.p & 0xEF;
        self.push_pc(bus);
        self.push_reg_status(bus);
        self.reg.p = self.reg.p | INTERRUPT;
        let target = self.wread(bus, 0xFFFA);
        self.reg.pc = target;
    }

    /// Maskable interrupt entry, polled after NMI: taken only when the IRQ
    /// line is asserted and InterruptDisable is clear; the sequence matches
    /// NMI entry with the vector at 0xFFFE.
    pub fn check_irq(&mut self, bus: &mut Bus)
        requires
            old(bus).wf(),
        ensures
            final(bus).wf(),
            irq_polled(*old(self), *old(bus), *final(self), *final(bus)),
    {
        if !bus.interrupts.get_irq_assert() {
            return;
        }
        if self.reg.p & INTERRUPT != 0 {
            return;
        }
        bus.interrupts.deassert_irq();
        self.reg.p = self.reg.p & 0xEF;
        self.push_pc(bus);
        self.push_reg_status(bus);
        self.reg.p = self.reg.p | INTERRUPT;
        let target = self.wread(bus, 0xFFFE);
        self.reg.pc = target;
    }

    /// Resets the register file and counters and loads the program counter
    /// from the reset vector at 0xFFFC.
    pub fn reset(&mut self, bus: &mut Bus)
        requires
            old(bus).wf(),
        ensures
            final(bus).wf(),
            *final(bus) == *old(bus),
            *final(self) == (Cpu {
                index: 0u64,
                cycle: 0u64,
                has_branched: false,
                reg: (Register {
                    a: 0u8,
                    x: 0u8,
                    y: 0u8,
                    sp: 0xFDu8,
                    pc: prog_word(old(bus).cas, 0xFFFC) as u16,
                    p: 0x24u8,
                }),
                ..*old(self)
            }),
    {
        self.index = 0;
        self.cycle = 0;
        self.has_branched = false;
        self.reg.reset();
        let target = self.wread(bus, 0xFFFC);
        self.reg.pc = target;
    }

    /// One CPU step: polls the interrupt lines, fetches and decodes one
    /// instruction, executes it, and returns the cycles consumed — the
    /// table's base count, plus one for a page crossing, plus one for a
    /// taken conditional branch (`run_rel`). With no interrupt pending and
    /// the program counter in plain memory, the step succeeds exactly when
    /// the opcode byte has a table entry, and otherwise reports that byte
    /// and its address.
    pub fn run(&mut self, bus: &mut Bus) -> (r: Result<u64, EmuError>)
        requires
            old(bus).wf(),
            old(self).cycle <= 0xFFFF_FFFF_FFFF_0000u64,
            old(self).index <= 0xFFFF_FFFF_FFFF_0000u64,
        ensures
            final(bus).wf(),
            ppu_timing_kept(*old(bus), *final(bus)),
            r matches Ok(c) ==> 2 <= c <= 10 && final(self).cycle == old(self).cycle + c
                && final(self).index == old(self).index + 1,
            r is Err ==> final(self).cycle == old(self).cycle && final(self).index == old(self).index,
            run_rel(*old(self), *old(bus), *final(self), *final(bus), r),
            (!old(bus).interrupts.nmi && !(old(bus).interrupts.irq && old(self).reg.p
                & INTERRUPT == 0) && fetch_window(old(self).reg.pc)) ==> ({
                let opc = cpu_plain_byte(*old(bus), old(self).reg.pc as int);
                &&& (op_table_spec(opc) is Some ==> r is Ok)
                &&& (op_table_spec(opc) is None ==> r == Err::<u64, EmuError>(
                    EmuError::UnknownOpcode { opcode: opc, pc: old(self).reg.pc },
                ))
            }),
    {
        self.has_branched = false;
        let ghost c00 = *self;
        let ghost b00 = *bus;
        self.check_nmi(bus);
        let ghost ca = *self;
        let ghost ba = *bus;
        self.check_irq(bus);
        let ghost cb = *self;
        let ghost bb = *bus;
        let fetched = self.fetch_op(bus);
        let fop = match fetched {
            Ok(f) => f,
            Err(e) => {
                proof {
                    assert(nmi_polled(c00, b00, ca, ba));
                    assert(irq_polled(ca, ba, cb, bb));
                    assert(fetch_rel(cb, bb, *self, *bus, Err(e)));
                    assert(run_rel(*old(self), *old(bus), *self, *bus, Err(e)));
                }
                return Err(e);
            },
        };
        let ghost cc = *self;
        let ghost bc = *bus;
        self.exec(bus, &fop);
        let ghost cd = *self;
        let cycle: u64 = fop.op.cycle as u64 + fop.add_cycle as u64 + (if self.has_branched {
            1u64
        } else {
            0u64
        });
        self.cycle = self.cycle + cycle;
        self.index = self.index + 1;
        proof {
            assert(nmi_polled(c00, b00, ca, ba));
            assert(irq_polled(ca, ba, cb, bb));
            assert(fetch_rel(cb, bb, cc, bc, Ok(fop)));
            assert(exec_rel(cc, bc, fop, cd, *bus));
            assert(cycle == fop.op.cycle + fop.add_cycle + (if cd.has_branched {
                1int
            } else {
                0int
            }));
            assert(*self == (Cpu {
                cycle: (old(self).cycle + cycle) as u64,
                index: (old(self).index + 1) as u64,
                ..cd
            }));
            assert(run_rel(*old(self), *old(bus), *self, *bus, Ok(cycle)));
        }
        Ok(cycle)
    }
}

} // verus!
