//! CPU-level tests: instruction semantics, flags, stack, interrupts, and
//! the bus as the CPU sees it.

use rustness::cassette::Cassette;
use rustness::cpu::{alu_adc, alu_asl, alu_cmp, alu_lsr, alu_rol, alu_ror, alu_sbc};
use rustness::nes::Nes;
use rustness::optable::{op_info, AddrModes, OpCodes};

fn build_rom(program: &[u8], entry: u16) -> Vec<u8> {
    let mut bytes = vec![0x4Eu8, 0x45, 0x53, 0x1A, 1, 0, 0, 0];
    bytes.resize(16, 0);
    let mut prog = vec![0u8; 0x4000];
    prog[..program.len()].copy_from_slice(program);
    prog[0x3FFC] = (entry & 0xFF) as u8;
    prog[0x3FFD] = (entry >> 8) as u8;
    // interrupt vectors point at a harmless self-loop at 0xFFF0
    prog[0x3FF0] = 0x4C;
    prog[0x3FF1] = 0xF0;
    prog[0x3FF2] = 0xFF;
    prog[0x3FFA] = 0xF0;
    prog[0x3FFB] = 0xFF;
    prog[0x3FFE] = 0xF0;
    prog[0x3FFF] = 0xFF;
    bytes.extend_from_slice(&prog);
    bytes
}

fn boot(program: &[u8]) -> Nes {
    let bytes = build_rom(program, 0xC000);
    let cas = Cassette::from_ines(&bytes).expect("valid rom");
    let mut nes = Nes::new(cas);
    nes.reset();
    nes
}

#[test]
fn reset_loads_vector_and_registers() {
    let nes = boot(&[0xEA]);
    assert_eq!(nes.cpu.reg.pc, 0xC000);
    assert_eq!(nes.cpu.reg.sp, 0xFD);
    assert_eq!(nes.cpu.reg.p, 0x24);
    assert_eq!(nes.cpu.reg.a, 0);
    assert_eq!(nes.cpu.reg.x, 0);
    assert_eq!(nes.cpu.reg.y, 0);
    assert_eq!(nes.cpu.cycle, 0);
}

#[test]
fn golden_trace_fields_over_a_short_program() {
    // LDA/TAX/STA/ADC/INX/BNE/LDX/TXS/PHA/PLP/JMP with hand-computed
    // PC, A, X, P, SP and cumulative cycles after every instruction.
    let nes = &mut boot(&[
        0xA9, 0x10, // C000 LDA #$10
        0xAA, // C002 TAX
        0x8D, 0x00, 0x02, // C003 STA $0200
        0x69, 0xF0, // C006 ADC #$F0
        0xE8, // C008 INX
        0xD0, 0x01, // C009 BNE +1
        0xEA, // C00B NOP (skipped)
        0xA2, 0x05, // C00C LDX #$05
        0x9A, // C00E TXS
        0x48, // C00F PHA
        0x28, // C010 PLP
        0x4C, 0x11, 0xC0, // C011 JMP $C011
    ]);
    nes.step().unwrap();
    assert_eq!((nes.cpu.reg.pc, nes.cpu.reg.a, nes.cpu.reg.p, nes.cpu.cycle), (0xC002, 0x10, 0x24, 2));
    nes.step().unwrap();
    assert_eq!((nes.cpu.reg.pc, nes.cpu.reg.x, nes.cpu.cycle), (0xC003, 0x10, 4));
    nes.step().unwrap();
    assert_eq!(nes.bus.wram.data[0x200], 0x10);
    assert_eq!((nes.cpu.reg.pc, nes.cpu.cycle), (0xC006, 8));
    nes.step().unwrap();
    // 0x10 + 0xF0 = 0x100: result 0, carry set, zero set, no overflow
    assert_eq!((nes.cpu.reg.a, nes.cpu.reg.p, nes.cpu.cycle), (0x00, 0x27, 10));
    nes.step().unwrap();
    assert_eq!((nes.cpu.reg.x, nes.cpu.reg.p, nes.cpu.cycle), (0x11, 0x25, 12));
    nes.step().unwrap();
    // branch taken: +1 cycle, lands past the NOP
    assert_eq!((nes.cpu.reg.pc, nes.cpu.cycle), (0xC00C, 15));
    nes.step().unwrap();
    assert_eq!((nes.cpu.reg.x, nes.cpu.reg.p, nes.cpu.cycle), (0x05, 0x25, 17));
    nes.step().unwrap();
    assert_eq!((nes.cpu.reg.sp, nes.cpu.reg.p, nes.cpu.cycle), (0x05, 0x25, 19));
    nes.step().unwrap();
    // PHA: A pushed at 0x0105
    assert_eq!(nes.bus.wram.data[0x105], 0x00);
    assert_eq!((nes.cpu.reg.sp, nes.cpu.cycle), (0x04, 22));
    nes.step().unwrap();
    // PLP pulls 0x00: Break kept from before (clear), Reserved forced on
    assert_eq!((nes.cpu.reg.sp, nes.cpu.reg.p, nes.cpu.cycle), (0x05, 0x20, 26));
    assert!(nes.cpu.reg.p & 0x20 != 0);
    nes.step().unwrap();
    assert_eq!((nes.cpu.reg.pc, nes.cpu.cycle), (0xC011, 29));
}

#[test]
fn branch_not_taken_costs_no_extra_cycle() {
    let nes = &mut boot(&[
        0xA9, 0x01, // LDA #$01 (clears Z)
        0xF0, 0x10, // BEQ +16: not taken
        0xEA,
    ]);
    nes.step().unwrap();
    let c0 = nes.cpu.cycle;
    nes.step().unwrap();
    assert_eq!(nes.cpu.cycle - c0, 2);
    assert_eq!(nes.cpu.reg.pc, 0xC004);
}

#[test]
fn backward_branch_uses_signed_offset() {
    // BNE with offset 0xFC from pc_after 0xC004 lands at 0xC000.
    let nes = &mut boot(&[
        0xA9, 0x01, // C000 LDA #$01
        0xD0, 0xFC, // C002 BNE -4
    ]);
    nes.step().unwrap();
    nes.step().unwrap();
    assert_eq!(nes.cpu.reg.pc, 0xC000);
}

#[test]
fn stack_pushes_wrap_within_page_one() {
    // TXS with X=0, then two PHA: the first lands at 0x0100, the pointer
    // wraps to 0xFF, the second lands at 0x01FF.
    let nes = &mut boot(&[
        0xA2, 0x00, // LDX #$00
        0x9A, // TXS
        0xA9, 0x77, // LDA #$77
        0x48, // PHA
        0x48, // PHA
    ]);
    for _ in 0..5 {
        nes.step().unwrap();
    }
    assert_eq!(nes.bus.wram.data[0x100], 0x77);
    assert_eq!(nes.bus.wram.data[0x1FF], 0x77);
    assert_eq!(nes.cpu.reg.sp, 0xFE);
}

#[test]
fn rti_keeps_reserved_bit_set() {
    // Push a target address and an all-zero status, then RTI: the pulled
    // status must still carry bit 5.
    let nes = &mut boot(&[
        0xA9, 0xC0, // LDA #$C0
        0x48, // PHA (pc high)
        0xA9, 0x10, // LDA #$10
        0x48, // PHA (pc low)
        0xA9, 0x00, // LDA #$00
        0x48, // PHA (status)
        0x40, // RTI
    ]);
    for _ in 0..7 {
        nes.step().unwrap();
    }
    assert!(nes.cpu.reg.p & 0x20 != 0);
    assert_eq!(nes.cpu.reg.pc, 0xC010);
}

#[test]
fn nmi_enters_vector_and_clears_line() {
    let nes = &mut boot(&[0xEA, 0xEA]);
    nes.bus.interrupts.nmi = true;
    let sp0 = nes.cpu.reg.sp;
    nes.step().unwrap();
    assert!(!nes.bus.interrupts.nmi);
    assert_eq!(nes.cpu.reg.sp, sp0.wrapping_sub(3));
    assert!(nes.cpu.reg.p & 0x04 != 0);
    // the NMI vector points at 0xFFF0, and one instruction ran from there
    assert_eq!(nes.cpu.reg.pc, 0xFFF0);
}

#[test]
fn irq_respects_interrupt_disable() {
    let nes = &mut boot(&[0xEA, 0xEA]);
    // reset status has InterruptDisable set, so the IRQ is held off
    nes.bus.interrupts.irq = true;
    nes.step().unwrap();
    assert!(nes.bus.interrupts.irq);
    assert_eq!(nes.cpu.reg.pc, 0xC001);
}

#[test]
fn unknown_opcode_is_reported_with_its_address() {
    let nes = &mut boot(&[0x0B]);
    let err = nes.step().unwrap_err();
    assert_eq!(
        err,
        rustness::cpu::EmuError::UnknownOpcode { opcode: 0x0B, pc: 0xC000 }
    );
}

#[test]
fn wram_mirrors_share_one_cell() {
    let nes = &mut boot(&[0xEA]);
    nes.cpu.write(&mut nes.bus, 0x0005, 0xAB);
    assert_eq!(nes.cpu.read(&mut nes.bus, 0x0805), 0xAB);
    assert_eq!(nes.cpu.read(&mut nes.bus, 0x1005), 0xAB);
    assert_eq!(nes.cpu.read(&mut nes.bus, 0x1805), 0xAB);
    nes.cpu.write(&mut nes.bus, 0x1805, 0x5A);
    assert_eq!(nes.cpu.read(&mut nes.bus, 0x0005), 0x5A);
}

#[test]
fn prog_rom_is_mirrored_for_a_single_bank() {
    let nes = &mut boot(&[0xEA]);
    assert_eq!(nes.cpu.read(&mut nes.bus, 0x8000), 0xEA);
    assert_eq!(nes.cpu.read(&mut nes.bus, 0xC000), 0xEA);
}

#[test]
fn controller_latch_and_read_order() {
    let nes = &mut boot(&[0xEA]);
    nes.cpu.keypad1.a = true;
    nes.cpu.keypad1.start = true;
    nes.cpu.write(&mut nes.bus, 0x4016, 1);
    nes.cpu.write(&mut nes.bus, 0x4016, 0);
    let mut reads = Vec::new();
    for _ in 0..9 {
        reads.push(nes.cpu.read(&mut nes.bus, 0x4016));
    }
    // A, B, Start, Select, Up, Down, Left, Right, then zero
    assert_eq!(reads, vec![1, 0, 1, 0, 0, 0, 0, 0, 0]);
}

#[test]
fn alu_adc_sets_carry_zero_and_overflow() {
    // unsigned carry and zero
    let (r, p) = alu_adc(0x10, 0xF0, 0x24);
    assert_eq!(r, 0x00);
    assert_eq!(p & 0x01, 0x01);
    assert_eq!(p & 0x02, 0x02);
    assert_eq!(p & 0x40, 0x00);
    // signed overflow: 0x50 + 0x50 = 0xA0
    let (r2, p2) = alu_adc(0x50, 0x50, 0x24);
    assert_eq!(r2, 0xA0);
    assert_eq!(p2 & 0x40, 0x40);
    assert_eq!(p2 & 0x80, 0x80);
    // carry in adds one
    let (r3, _) = alu_adc(0x01, 0x01, 0x25);
    assert_eq!(r3, 0x03);
}

#[test]
fn alu_sbc_signed_overflow_follows_the_standard_rule() {
    // 127 - (-1) = 128: signed overflow, no borrow taken away (carry in set)
    let (r, p) = alu_sbc(0x7F, 0xFF, 0x25);
    assert_eq!(r, 0x80);
    assert_eq!(p & 0x40, 0x40); // overflow set
    assert_eq!(p & 0x01, 0x00); // borrow occurred: carry clear
    assert_eq!(p & 0x80, 0x80);
    // 0x50 - 0x70: operands' signs agree, no signed overflow
    let (r2, p2) = alu_sbc(0x50, 0x70, 0x25);
    assert_eq!(r2, 0xE0);
    assert_eq!(p2 & 0x40, 0x00);
    // no borrow case keeps carry
    let (r3, p3) = alu_sbc(0x50, 0x10, 0x25);
    assert_eq!(r3, 0x40);
    assert_eq!(p3 & 0x01, 0x01);
}

#[test]
fn dcp_decrements_memory_and_compares_like_cmp() {
    // LDA #$05; LDX #$04; STX $10; DCP $10 (0xC7)
    let nes = &mut boot(&[
        0xA9, 0x05, // LDA #$05
        0xA2, 0x04, // LDX #$04
        0x86, 0x10, // STX $10
        0xC7, 0x10, // DCP $10
    ]);
    for _ in 0..4 {
        nes.step().unwrap();
    }
    assert_eq!(nes.bus.wram.data[0x10], 3);
    // A=5 >= 3: carry set, zero clear, negative clear
    assert_eq!(nes.cpu.reg.p & 0x01, 0x01);
    assert_eq!(nes.cpu.reg.p & 0x02, 0x00);
    assert_eq!(nes.cpu.reg.p & 0x80, 0x00);
}

#[test]
fn isb_increments_memory_then_subtracts_with_borrow() {
    // LDA #$10; LDX #$0F; STX $10; SEC; ISB $10 (0xE7)
    let nes = &mut boot(&[
        0xA9, 0x10, // LDA #$10
        0xA2, 0x0F, // LDX #$0F
        0x86, 0x10, // STX $10
        0x38, // SEC
        0xE7, 0x10, // ISB $10
    ]);
    for _ in 0..5 {
        nes.step().unwrap();
    }
    assert_eq!(nes.bus.wram.data[0x10], 0x10);
    // A = 0x10 - 0x10 - 0 = 0: zero and carry set
    assert_eq!(nes.cpu.reg.a, 0x00);
    assert_eq!(nes.cpu.reg.p & 0x03, 0x03);
}

#[test]
fn alu_cmp_carry_iff_register_not_less() {
    assert_eq!(alu_cmp(0x20, 0x10, 0x24) & 0x01, 0x01);
    assert_eq!(alu_cmp(0x10, 0x10, 0x24) & 0x03, 0x03);
    assert_eq!(alu_cmp(0x0F, 0x10, 0x24) & 0x01, 0x00);
    assert_eq!(alu_cmp(0x0F, 0x10, 0x24) & 0x80, 0x80);
}

#[test]
fn shifts_move_bits_through_carry() {
    let (r, p) = alu_asl(0x81, 0x24);
    assert_eq!(r, 0x02);
    assert_eq!(p & 0x01, 0x01);
    let (r2, p2) = alu_lsr(0x01, 0x24);
    assert_eq!(r2, 0x00);
    assert_eq!(p2 & 0x03, 0x03);
    // ROL inserts the old carry at bit 0
    let (r3, _) = alu_rol(0x80, 0x25);
    assert_eq!(r3, 0x01);
    // ROR inserts the old carry at bit 7
    let (r4, _) = alu_ror(0x01, 0x25);
    assert_eq!(r4, 0x80);
}

#[test]
fn op_table_spot_checks() {
    let lda = op_info(0xA9).unwrap();
    assert_eq!(lda.opcode, OpCodes::LDA);
    assert_eq!(lda.mode, AddrModes::IMD);
    assert_eq!(lda.cycle, 2);
    let jmp = op_info(0x6C).unwrap();
    assert_eq!(jmp.opcode, OpCodes::JMP);
    assert_eq!(jmp.mode, AddrModes::ABSIND);
    assert_eq!(jmp.cycle, 5);
    let lax = op_info(0xA7).unwrap();
    assert_eq!(lax.opcode, OpCodes::LAX);
    assert!(op_info(0x0B).is_none());
    assert!(op_info(0x9C).is_none());
}

#[test]
fn absolute_indirect_wraps_within_the_page() {
    // JMP ($C0FF): the high pointer byte is read from 0xC000, not 0xC100.
    let mut program = vec![0u8; 0x200];
    program[0] = 0x34; // byte at 0xC000: target high-byte partner
    // entry at 0xC010
    program[0x10] = 0x6C;
    program[0x11] = 0xFF;
    program[0x12] = 0xC0;
    program[0xFF] = 0x12; // low byte of target at 0xC0FF
    // target = 0x3412 read from (0xC0FF, 0xC000)
    let bytes = build_rom(&program, 0xC010);
    let cas = Cassette::from_ines(&bytes).expect("valid rom");
    let mut nes = Nes::new(cas);
    nes.reset();
    nes.step().unwrap();
    assert_eq!(nes.cpu.reg.pc, 0x3412);
}
