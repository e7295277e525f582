use gb_core::cpu::{decode, Condition, Cpu, Dst8, Fault, Instr, Pair, Reg8Name, Src8};
use gb_core::mem::MemFault;

/// A zero-filled 16KB fixed-bank image with `program` placed at 0x0100, the
/// power-on program counter.
fn rom_with_program(program: &[u8]) -> Vec<u8> {
    let mut rom = vec![0u8; 0x4000];
    rom[0x100..0x100 + program.len()].copy_from_slice(program);
    rom
}

/// A CPU at power-on with `program` at 0x0100.
fn cpu_with_program(program: &[u8]) -> Cpu {
    let mut cpu = Cpu::new();
    cpu.load_rom_bank(&rom_with_program(program));
    cpu
}

#[test]
fn power_on_state_is_documented() {
    let cpu = Cpu::new();
    assert_eq!(cpu.a(), 0);
    assert_eq!(cpu.f(), 0);
    assert_eq!(cpu.b(), 0);
    assert_eq!(cpu.c(), 0);
    assert_eq!(cpu.d(), 0);
    assert_eq!(cpu.e(), 0);
    assert_eq!(cpu.h(), 0);
    assert_eq!(cpu.l(), 0);
    assert_eq!(cpu.sp(), 0xFFFE);
    assert_eq!(cpu.pc(), 0x0100);
}

#[test]
fn decode_table_spot_checks() {
    assert_eq!(decode(false, 0x00), Some(Instr::Nop));
    assert_eq!(
        decode(false, 0x41),
        Some(Instr::Ld(Dst8::Reg(Reg8Name::B), Src8::Reg(Reg8Name::C)))
    );
    assert_eq!(decode(false, 0x7E), Some(Instr::Ld(Dst8::Reg(Reg8Name::A), Src8::HlAddr)));
    assert_eq!(decode(false, 0x36), Some(Instr::Ld(Dst8::HlAddr, Src8::Imm8)));
    assert_eq!(decode(false, 0xC6), Some(Instr::Add(Src8::Imm8)));
    assert_eq!(decode(false, 0x97), Some(Instr::Sub(Src8::Reg(Reg8Name::A))));
    assert_eq!(decode(false, 0x20), Some(Instr::Jr(Some(Condition::NZ))));
    assert_eq!(decode(false, 0x18), Some(Instr::Jr(None)));
    assert_eq!(decode(false, 0xC5), Some(Instr::Push(Pair::Bc)));
    assert_eq!(decode(false, 0xC3), Some(Instr::Jp));
    assert_eq!(decode(true, 0x87), Some(Instr::Res0A));
    // The escape prefix itself is not an instruction.
    assert_eq!(decode(false, 0xCB), None);
    // Holes in the table are decode faults, not guesses.
    assert_eq!(decode(false, 0xD3), None);
    assert_eq!(decode(true, 0x00), None);
}

#[test]
fn nop_advances_pc_and_changes_nothing_else() {
    // A zero-filled ROM holds NOP at 0x0100 (and everywhere else).
    let mut cpu = cpu_with_program(&[]);
    assert_eq!(cpu.step(), Ok(()));
    assert_eq!(cpu.pc(), 0x0101);
    assert_eq!(cpu.a(), 0);
    assert_eq!(cpu.f(), 0);
    assert_eq!(cpu.b(), 0);
    assert_eq!(cpu.c(), 0);
    assert_eq!(cpu.d(), 0);
    assert_eq!(cpu.e(), 0);
    assert_eq!(cpu.h(), 0);
    assert_eq!(cpu.l(), 0);
    assert_eq!(cpu.sp(), 0xFFFE);
}

#[test]
fn and_of_disjoint_nibbles_sets_zero_and_halfcarry() {
    // LD A,0x0F ; AND 0xF0
    let mut cpu = cpu_with_program(&[0x3E, 0x0F, 0xE6, 0xF0]);
    assert_eq!(cpu.step(), Ok(()));
    assert_eq!(cpu.a(), 0x0F);
    assert_eq!(cpu.step(), Ok(()));
    assert_eq!(cpu.a(), 0x00);
    assert!(cpu.is_f_zero());
    assert!(cpu.is_f_halfcarry());
    assert!(!cpu.is_f_subtraction());
    assert!(!cpu.is_f_carry());
}

#[test]
fn push_stores_low_byte_at_the_lower_address() {
    // LD BC,0x1234 ; PUSH BC — SP starts at its power-on value 0xFFFE.
    let mut cpu = cpu_with_program(&[0x01, 0x34, 0x12, 0xC5]);
    assert_eq!(cpu.step(), Ok(()));
    assert_eq!((cpu.b(), cpu.c()), (0x12, 0x34));
    assert_eq!(cpu.step(), Ok(()));
    assert_eq!(cpu.sp(), 0xFFFC);
    assert_eq!(cpu.bus().read_u8(0xFFFC), Ok(0x34));
    assert_eq!(cpu.bus().read_u8(0xFFFD), Ok(0x12));
}

#[test]
fn push_then_pop_returns_the_value_and_restores_sp() {
    let mut cpu = cpu_with_program(&[]);
    assert_eq!(cpu.push_stack_u16(0xBEEF), Ok(()));
    assert_eq!(cpu.sp(), 0xFFFC);
    assert_eq!(cpu.pop_stack_u16(), Ok(0xBEEF));
    assert_eq!(cpu.sp(), 0xFFFE);
}

#[test]
fn byte_push_and_pop_mirror_each_other() {
    let mut cpu = cpu_with_program(&[]);
    assert_eq!(cpu.push_stack_u8(0x42), Ok(()));
    assert_eq!(cpu.sp(), 0xFFFD);
    assert_eq!(cpu.pop_stack_u8(), Ok(0x42));
    assert_eq!(cpu.sp(), 0xFFFE);
}

#[test]
fn call_then_ret_returns_past_the_call() {
    // 0x0100: CALL 0x0150 ; 0x0150: RET
    let mut rom = rom_with_program(&[0xCD, 0x50, 0x01]);
    rom[0x150] = 0xC9;
    let mut cpu = Cpu::new();
    cpu.load_rom_bank(&rom);
    assert_eq!(cpu.step(), Ok(()));
    assert_eq!(cpu.pc(), 0x0150);
    assert_eq!(cpu.sp(), 0xFFFC);
    assert_eq!(cpu.step(), Ok(()));
    assert_eq!(cpu.pc(), 0x0103);
    assert_eq!(cpu.sp(), 0xFFFE);
}

#[test]
fn relative_jump_with_zero_displacement_lands_two_past() {
    // JR 0
    let mut cpu = cpu_with_program(&[0x18, 0x00]);
    assert_eq!(cpu.step(), Ok(()));
    assert_eq!(cpu.pc(), 0x0102);
}

#[test]
fn relative_jump_follows_signed_displacement() {
    // JR +5
    let mut cpu = cpu_with_program(&[0x18, 0x05]);
    assert_eq!(cpu.step(), Ok(()));
    assert_eq!(cpu.pc(), 0x0107);
    // JR -2 jumps back onto itself.
    let mut cpu = cpu_with_program(&[0x18, 0xFE]);
    assert_eq!(cpu.step(), Ok(()));
    assert_eq!(cpu.pc(), 0x0100);
}

#[test]
fn conditional_relative_jump_obeys_the_flags() {
    // JR NZ,+4 with Zero clear: taken.
    let mut cpu = cpu_with_program(&[0x20, 0x04]);
    assert_eq!(cpu.step(), Ok(()));
    assert_eq!(cpu.pc(), 0x0106);
    // XOR A sets Zero; then JR NZ,+4 falls through.
    let mut cpu = cpu_with_program(&[0xAF, 0x20, 0x04]);
    assert_eq!(cpu.step(), Ok(()));
    assert!(cpu.is_f_zero());
    assert_eq!(cpu.step(), Ok(()));
    assert_eq!(cpu.pc(), 0x0103);
    // JR Z,+4 with Zero set: taken.
    let mut cpu = cpu_with_program(&[0xAF, 0x28, 0x04]);
    assert_eq!(cpu.step(), Ok(()));
    assert_eq!(cpu.step(), Ok(()));
    assert_eq!(cpu.pc(), 0x0107);
}

#[test]
fn absolute_jump_sets_pc_to_the_operand() {
    let mut cpu = cpu_with_program(&[0xC3, 0x50, 0x01]);
    assert_eq!(cpu.step(), Ok(()));
    assert_eq!(cpu.pc(), 0x0150);
}

#[test]
fn add_wraps_and_recomputes_all_flags() {
    // LD A,0xFF ; ADD 0x01 — wraps to 0 with Zero, Half-carry and Carry set.
    let mut cpu = cpu_with_program(&[0x3E, 0xFF, 0xC6, 0x01]);
    assert_eq!(cpu.step(), Ok(()));
    assert_eq!(cpu.step(), Ok(()));
    assert_eq!(cpu.a(), 0x00);
    assert!(cpu.is_f_zero());
    assert!(cpu.is_f_halfcarry());
    assert!(cpu.is_f_carry());
    assert!(!cpu.is_f_subtraction());
    // LD A,0x08 ; ADD 0x08 — half-carry only.
    let mut cpu = cpu_with_program(&[0x3E, 0x08, 0xC6, 0x08]);
    assert_eq!(cpu.step(), Ok(()));
    assert_eq!(cpu.step(), Ok(()));
    assert_eq!(cpu.a(), 0x10);
    assert!(!cpu.is_f_zero());
    assert!(cpu.is_f_halfcarry());
    assert!(!cpu.is_f_carry());
}

#[test]
fn sub_underflow_wraps_and_sets_carry() {
    // LD A,0x05 ; SUB 0x0A — 5 - 10 wraps to 0xFB, Carry set (a < v).
    let mut cpu = cpu_with_program(&[0x3E, 0x05, 0xD6, 0x0A]);
    assert_eq!(cpu.step(), Ok(()));
    assert_eq!(cpu.step(), Ok(()));
    assert_eq!(cpu.a(), 0xFB);
    assert!(!cpu.is_f_zero());
    assert!(cpu.is_f_subtraction());
    assert!(cpu.is_f_carry());
    assert!(cpu.is_f_halfcarry());
}

#[test]
fn compare_sets_flags_but_leaves_the_accumulator() {
    // LD A,0x42 ; CP 0x42
    let mut cpu = cpu_with_program(&[0x3E, 0x42, 0xFE, 0x42]);
    assert_eq!(cpu.step(), Ok(()));
    assert_eq!(cpu.step(), Ok(()));
    assert_eq!(cpu.a(), 0x42);
    assert!(cpu.is_f_zero());
    assert!(cpu.is_f_subtraction());
    assert!(!cpu.is_f_carry());
}

#[test]
fn xor_with_itself_clears_the_accumulator() {
    let mut cpu = cpu_with_program(&[0xAF]);
    assert_eq!(cpu.step(), Ok(()));
    assert_eq!(cpu.a(), 0);
    assert!(cpu.is_f_zero());
    assert!(!cpu.is_f_subtraction());
    assert!(!cpu.is_f_halfcarry());
    assert!(!cpu.is_f_carry());
}

#[test]
fn or_combines_nibbles_and_clears_other_flags() {
    // LD A,0x0F ; OR 0xF0
    let mut cpu = cpu_with_program(&[0x3E, 0x0F, 0xF6, 0xF0]);
    assert_eq!(cpu.step(), Ok(()));
    assert_eq!(cpu.step(), Ok(()));
    assert_eq!(cpu.a(), 0xFF);
    assert_eq!(cpu.f(), 0);
}

#[test]
fn register_loads_copy_without_touching_flags() {
    // LD A,0x5A ; LD B,A ; LD C,B
    let mut cpu = cpu_with_program(&[0x3E, 0x5A, 0x47, 0x48]);
    assert_eq!(cpu.step(), Ok(()));
    assert_eq!(cpu.step(), Ok(()));
    assert_eq!(cpu.step(), Ok(()));
    assert_eq!(cpu.b(), 0x5A);
    assert_eq!(cpu.c(), 0x5A);
    assert_eq!(cpu.f(), 0);
    assert_eq!(cpu.pc(), 0x0104);
}

#[test]
fn loads_through_hl_reach_memory() {
    // LD HL,0xC000 ; LD (HL),0x77 ; LD A,(HL)
    let mut cpu = cpu_with_program(&[0x21, 0x00, 0xC0, 0x36, 0x77, 0x7E]);
    assert_eq!(cpu.step(), Ok(()));
    assert_eq!((cpu.h(), cpu.l()), (0xC0, 0x00));
    assert_eq!(cpu.step(), Ok(()));
    assert_eq!(cpu.bus().read_u8(0xC000), Ok(0x77));
    assert_eq!(cpu.step(), Ok(()));
    assert_eq!(cpu.a(), 0x77);
}

#[test]
fn ldi_stores_then_increments_hl() {
    // LD HL,0xC0FF ; LD A,0x9D ; LDI (HL),A
    let mut cpu = cpu_with_program(&[0x21, 0xFF, 0xC0, 0x3E, 0x9D, 0x22]);
    assert_eq!(cpu.step(), Ok(()));
    assert_eq!(cpu.step(), Ok(()));
    assert_eq!(cpu.step(), Ok(()));
    assert_eq!(cpu.bus().read_u8(0xC0FF), Ok(0x9D));
    assert_eq!((cpu.h(), cpu.l()), (0xC1, 0x00));
}

#[test]
fn sixteen_bit_increment_and_decrement_wrap() {
    // LD HL,0x00FF ; INC HL
    let mut cpu = cpu_with_program(&[0x21, 0xFF, 0x00, 0x23]);
    assert_eq!(cpu.step(), Ok(()));
    assert_eq!(cpu.step(), Ok(()));
    assert_eq!((cpu.h(), cpu.l()), (0x01, 0x00));
    // DEC BC from zero wraps to 0xFFFF and touches no flags.
    let mut cpu = cpu_with_program(&[0x0B]);
    assert_eq!(cpu.step(), Ok(()));
    assert_eq!((cpu.b(), cpu.c()), (0xFF, 0xFF));
    assert_eq!(cpu.f(), 0);
}

#[test]
fn eight_bit_increment_keeps_the_carry_flag() {
    // LD A,0xFF ; ADD 0x01 sets Carry; INC B must leave it set.
    let mut cpu = cpu_with_program(&[0x3E, 0xFF, 0xC6, 0x01, 0x04]);
    assert_eq!(cpu.step(), Ok(()));
    assert_eq!(cpu.step(), Ok(()));
    assert!(cpu.is_f_carry());
    assert_eq!(cpu.step(), Ok(()));
    assert_eq!(cpu.b(), 1);
    assert!(cpu.is_f_carry());
    assert!(!cpu.is_f_zero());
    assert!(!cpu.is_f_subtraction());
}

#[test]
fn eight_bit_decrement_to_zero_sets_zero_and_subtract() {
    // LD A,0x01 ; DEC A
    let mut cpu = cpu_with_program(&[0x3E, 0x01, 0x3D]);
    assert_eq!(cpu.step(), Ok(()));
    assert_eq!(cpu.step(), Ok(()));
    assert_eq!(cpu.a(), 0);
    assert!(cpu.is_f_zero());
    assert!(cpu.is_f_subtraction());
}

#[test]
fn eight_bit_decrement_wraps_with_a_borrow() {
    // DEC E from 0 wraps to 0xFF with the low nibble borrowing.
    let mut cpu = cpu_with_program(&[0x1D]);
    assert_eq!(cpu.step(), Ok(()));
    assert_eq!(cpu.e(), 0xFF);
    assert!(cpu.is_f_halfcarry());
    assert!(cpu.is_f_subtraction());
    assert!(!cpu.is_f_zero());
    // DEC D behaves the same way.
    let mut cpu = cpu_with_program(&[0x15]);
    assert_eq!(cpu.step(), Ok(()));
    assert_eq!(cpu.d(), 0xFF);
}

#[test]
fn rrca_moves_bit_zero_into_carry() {
    // LD A,0x03 ; RRCA
    let mut cpu = cpu_with_program(&[0x3E, 0x03, 0x0F]);
    assert_eq!(cpu.step(), Ok(()));
    assert_eq!(cpu.step(), Ok(()));
    assert_eq!(cpu.a(), 0x01);
    assert!(cpu.is_f_carry());
    assert!(!cpu.is_f_zero());
    // LD A,0x01 ; RRCA shifts to zero.
    let mut cpu = cpu_with_program(&[0x3E, 0x01, 0x0F]);
    assert_eq!(cpu.step(), Ok(()));
    assert_eq!(cpu.step(), Ok(()));
    assert_eq!(cpu.a(), 0x00);
    assert!(cpu.is_f_carry());
    assert!(cpu.is_f_zero());
}

#[test]
fn extended_table_bit_reset_clears_bit_zero() {
    // LD A,0x03 ; RES 0,A (CB 87)
    let mut cpu = cpu_with_program(&[0x3E, 0x03, 0xCB, 0x87]);
    assert_eq!(cpu.step(), Ok(()));
    assert_eq!(cpu.step(), Ok(()));
    assert_eq!(cpu.a(), 0x02);
    assert_eq!(cpu.pc(), 0x0104);
    assert_eq!(cpu.f(), 0);
    // Clearing an already-clear bit leaves it clear.
    let mut cpu = cpu_with_program(&[0x3E, 0x02, 0xCB, 0x87]);
    assert_eq!(cpu.step(), Ok(()));
    assert_eq!(cpu.step(), Ok(()));
    assert_eq!(cpu.a(), 0x02);
}

#[test]
fn zero_page_loads_reach_io_and_high_ram() {
    // LD A,0x3C ; LDH (0x10),A ; LDH A,(0x10) via a fresh accumulator.
    let mut cpu = cpu_with_program(&[0x3E, 0x3C, 0xE0, 0x10, 0x3E, 0x00, 0xF0, 0x10]);
    for _ in 0..4 {
        assert_eq!(cpu.step(), Ok(()));
    }
    assert_eq!(cpu.bus().read_u8(0xFF10), Ok(0x3C));
    assert_eq!(cpu.a(), 0x3C);
}

#[test]
fn zero_page_load_into_the_unusable_gap_faults() {
    // LDH (0x60),A targets 0xFF60, which is unmapped.
    let mut cpu = cpu_with_program(&[0xE0, 0x60]);
    assert_eq!(
        cpu.step(),
        Err(Fault::Memory(MemFault { addr: 0xFF60, write: true }))
    );
    // A faulting instruction changes nothing.
    assert_eq!(cpu.pc(), 0x0100);
}

#[test]
fn direct_loads_use_a_sixteen_bit_address() {
    // LD A,0x55 ; LD (0xC123),A ; LD A,(0xC123) after clearing A.
    let mut cpu = cpu_with_program(&[
        0x3E, 0x55, 0xEA, 0x23, 0xC1, 0x3E, 0x00, 0xFA, 0x23, 0xC1,
    ]);
    for _ in 0..4 {
        assert_eq!(cpu.step(), Ok(()));
    }
    assert_eq!(cpu.bus().read_u8(0xC123), Ok(0x55));
    assert_eq!(cpu.a(), 0x55);
    assert_eq!(cpu.pc(), 0x010A);
}

#[test]
fn load_from_an_unmapped_address_is_a_memory_fault() {
    // LD A,(0xE000) — the echo region is a fault, not a silent read.
    let mut cpu = cpu_with_program(&[0xFA, 0x00, 0xE0]);
    assert_eq!(
        cpu.step(),
        Err(Fault::Memory(MemFault { addr: 0xE000, write: false }))
    );
    assert_eq!(cpu.pc(), 0x0100);
    assert_eq!(cpu.a(), 0);
}

#[test]
fn ld_bc_a_stores_through_the_pair() {
    // LD BC,0xC050 ; LD A,0x66 ; LD (BC),A
    let mut cpu = cpu_with_program(&[0x01, 0x50, 0xC0, 0x3E, 0x66, 0x02]);
    assert_eq!(cpu.step(), Ok(()));
    assert_eq!(cpu.step(), Ok(()));
    assert_eq!(cpu.step(), Ok(()));
    assert_eq!(cpu.bus().read_u8(0xC050), Ok(0x66));
}

#[test]
fn ld_sp_d16_replaces_the_stack_pointer() {
    let mut cpu = cpu_with_program(&[0x31, 0x00, 0xD0]);
    assert_eq!(cpu.step(), Ok(()));
    assert_eq!(cpu.sp(), 0xD000);
    assert_eq!(cpu.pc(), 0x0103);
}

#[test]
fn di_and_ld_h_only_advance_state_they_own() {
    // DI ; LD H,0xAB
    let mut cpu = cpu_with_program(&[0xF3, 0x26, 0xAB]);
    assert_eq!(cpu.step(), Ok(()));
    assert_eq!(cpu.pc(), 0x0101);
    assert_eq!(cpu.f(), 0);
    assert_eq!(cpu.step(), Ok(()));
    assert_eq!(cpu.h(), 0xAB);
    assert_eq!(cpu.pc(), 0x0103);
}

#[test]
fn undefined_opcode_is_a_decode_fault_with_its_address() {
    let mut cpu = cpu_with_program(&[0xD3]);
    assert_eq!(
        cpu.step(),
        Err(Fault::Decode { pc: 0x0100, prefixed: false, opcode: 0xD3 })
    );
    assert_eq!(cpu.pc(), 0x0100);
}

#[test]
fn undefined_extended_opcode_reports_the_second_byte() {
    let mut cpu = cpu_with_program(&[0xCB, 0x11]);
    assert_eq!(
        cpu.step(),
        Err(Fault::Decode { pc: 0x0100, prefixed: true, opcode: 0x11 })
    );
}

#[test]
fn stack_overflow_past_the_bottom_is_a_fault() {
    // LD SP,0x0001 ; PUSH BC — the push would wrap below address zero.
    let mut cpu = cpu_with_program(&[0x31, 0x01, 0x00, 0xC5]);
    assert_eq!(cpu.step(), Ok(()));
    assert_eq!(
        cpu.step(),
        Err(Fault::Memory(MemFault { addr: 0xFFFF, write: true }))
    );
    assert_eq!(cpu.sp(), 0x0001);
}

#[test]
fn stack_underflow_past_the_top_is_a_fault() {
    // At power-on SP is 0xFFFE; popping a word would push SP past the end.
    let mut cpu = cpu_with_program(&[]);
    assert_eq!(
        cpu.pop_stack_u16(),
        Err(Fault::Memory(MemFault { addr: 0x0000, write: false }))
    );
    assert_eq!(cpu.sp(), 0xFFFE);
}

#[test]
fn run_executes_until_the_budget_or_a_fault() {
    // A zero-filled ROM is NOPs all the way: the budget runs out.
    let mut cpu = Cpu::new();
    assert_eq!(cpu.run(&vec![0u8; 0x4000], 10), None);
    assert_eq!(cpu.pc(), 0x010A);
    // An undefined opcode stops the loop with the fault.
    let mut cpu = Cpu::new();
    let fault = cpu.run(&rom_with_program(&[0x00, 0xD3]), 1000);
    assert_eq!(
        fault,
        Some(Fault::Decode { pc: 0x0101, prefixed: false, opcode: 0xD3 })
    );
    assert_eq!(cpu.pc(), 0x0101);
}

#[test]
fn flag_helpers_set_and_reset_each_flag_independently() {
    let mut cpu = Cpu::new();
    cpu.set_f_zero();
    cpu.set_f_carry();
    assert!(cpu.is_f_zero());
    assert!(cpu.is_f_carry());
    assert!(!cpu.is_f_subtraction());
    assert!(!cpu.is_f_halfcarry());
    cpu.reset_f_zero();
    assert!(!cpu.is_f_zero());
    assert!(cpu.is_f_carry());
    // Resetting an already-clear flag must leave it clear, not toggle it.
    cpu.reset_f_zero();
    assert!(!cpu.is_f_zero());
    cpu.set_f_subtraction();
    cpu.set_f_halfcarry();
    assert!(cpu.is_f_subtraction());
    assert!(cpu.is_f_halfcarry());
    cpu.reset_f_subtraction();
    cpu.reset_f_halfcarry();
    cpu.reset_f_carry();
    assert_eq!(cpu.f(), 0);
}

#[test]
fn register_helpers_read_write_and_name() {
    let mut cpu = Cpu::new();
    cpu.reg8_write(Reg8Name::D, 0x99);
    assert_eq!(cpu.reg8_read(Reg8Name::D), 0x99);
    assert_eq!(cpu.d(), 0x99);
    assert_eq!(cpu.reg8_string(&Reg8Name::A), "A");
    assert_eq!(cpu.reg8_string(&Reg8Name::L), "L");
    assert_eq!(cpu.cond_string(&Condition::NZ), "NZ");
    assert_eq!(cpu.cond_string(&Condition::C), "C");
}

#[test]
fn cond_eval_follows_the_flags() {
    let mut cpu = Cpu::new();
    assert!(cpu.cond_eval(Condition::NZ));
    assert!(!cpu.cond_eval(Condition::Z));
    assert!(cpu.cond_eval(Condition::NC));
    assert!(!cpu.cond_eval(Condition::C));
    cpu.set_f_zero();
    cpu.set_f_carry();
    assert!(cpu.cond_eval(Condition::Z));
    assert!(cpu.cond_eval(Condition::C));
    assert!(!cpu.cond_eval(Condition::NZ));
    assert!(!cpu.cond_eval(Condition::NC));
}

#[test]
fn hl_indirection_helpers_read_and_write() {
    let mut cpu = cpu_with_program(&[0x21, 0x00, 0xC2]);
    assert_eq!(cpu.step(), Ok(()));
    assert_eq!(cpu.write_hladdr_u8(0x31), Ok(()));
    assert_eq!(cpu.read_hladdr_u8(), Ok(0x31));
    assert_eq!(cpu.bus().read_u8(0xC200), Ok(0x31));
}
