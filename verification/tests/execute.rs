use mos6502::instr::AddressingMode::{Absolute, Accumulator, Immediate, IndexedIndirect, IndirectIndexed, Relative, ZeroPage};
use mos6502::instr::Index;
use mos6502::instr::Operation;
use mos6502::machine::{EmuError, Machine, Operand, Status};

fn fresh() -> Machine {
    Machine::new()
}

#[test]
fn adc_carry_and_zero() {
    // 0xFF + 0x01 with carry clear: result 0x00, CARRY set, ZERO set,
    // OVERFLOW clear.
    let mut m = fresh();
    m.set_acc(0xFF);
    assert_eq!(m.step(Operation::Adc(Immediate(0x01))).unwrap(), Status::Cont);
    assert_eq!(m.acc, 0x00);
    assert!(m.flags.carry);
    assert!(m.flags.zero);
    assert!(!m.flags.overflow);
}

#[test]
fn adc_signed_overflow() {
    // 0x7F + 0x01 with carry clear: result 0x80, OVERFLOW set, NEGATIVE set.
    let mut m = fresh();
    m.set_acc(0x7F);
    assert_eq!(m.step(Operation::Adc(Immediate(0x01))).unwrap(), Status::Cont);
    assert_eq!(m.acc, 0x80);
    assert!(m.flags.overflow);
    assert!(m.flags.negative);
    assert!(!m.flags.carry);
    assert!(!m.flags.zero);
}

#[test]
fn adc_adds_carry_bit() {
    let mut m = fresh();
    m.set_acc(0x05);
    m.flags.carry = true;
    m.step(Operation::Adc(Immediate(0x03))).unwrap();
    assert_eq!(m.acc, 0x09);
    assert!(!m.flags.carry);
}

#[test]
fn sbc_borrows_through_inverted_carry() {
    let mut m = fresh();
    m.set_acc(0x05);
    m.flags.carry = true;
    m.step(Operation::Sbc(Immediate(0x03))).unwrap();
    assert_eq!(m.acc, 0x02);
    assert!(m.flags.carry);
    // Subtracting past zero clears carry and wraps.
    let mut n = fresh();
    n.set_acc(0x00);
    n.flags.carry = true;
    n.step(Operation::Sbc(Immediate(0x01))).unwrap();
    assert_eq!(n.acc, 0xFF);
    assert!(!n.flags.carry);
    assert!(n.flags.negative);
}

#[test]
fn logical_ops_update_accumulator() {
    let mut m = fresh();
    m.set_acc(0b1100);
    m.step(Operation::And(Immediate(0b1010))).unwrap();
    assert_eq!(m.acc, 0b1000);
    m.step(Operation::Ora(Immediate(0b0011))).unwrap();
    assert_eq!(m.acc, 0b1011);
    m.step(Operation::Eor(Immediate(0b1111))).unwrap();
    assert_eq!(m.acc, 0b0100);
}

#[test]
fn compare_sets_carry_zero_negative() {
    let mut m = fresh();
    m.set_acc(5);
    m.step(Operation::Cmp(Immediate(5))).unwrap();
    assert!(m.flags.carry);
    assert!(m.flags.zero);
    m.step(Operation::Cmp(Immediate(9))).unwrap();
    assert!(!m.flags.carry);
    assert!(!m.flags.zero);
    assert!(m.flags.negative); // 5 - 9 wraps to 0xFC
    m.set_x(7);
    m.step(Operation::Cpx(Immediate(3))).unwrap();
    assert!(m.flags.carry);
    assert!(!m.flags.zero);
    m.set_y(1);
    m.step(Operation::Cpy(Immediate(1))).unwrap();
    assert!(m.flags.zero);
}

#[test]
fn bit_test_copies_operand_bits() {
    let mut m = fresh();
    m.write_memory(0x10, 0xC0).unwrap();
    m.set_acc(0x3F);
    m.step(Operation::Bit(ZeroPage(0x10, Index::NoIndex))).unwrap();
    assert!(m.flags.zero); // 0x3F & 0xC0 == 0
    assert!(m.flags.negative); // bit 7 of the operand
    assert!(m.flags.overflow); // bit 6 of the operand
}

#[test]
fn shifts_move_bits_through_carry() {
    let mut m = fresh();
    m.set_acc(0x81);
    m.step(Operation::Asl(Accumulator)).unwrap();
    assert_eq!(m.acc, 0x02);
    assert!(m.flags.carry);

    let mut n = fresh();
    n.set_acc(0x01);
    n.step(Operation::Lsr(Accumulator)).unwrap();
    assert_eq!(n.acc, 0x00);
    assert!(n.flags.carry);
    assert!(n.flags.zero);
}

#[test]
fn rotates_feed_old_carry() {
    let mut m = fresh();
    m.set_acc(0x80);
    m.flags.carry = true;
    m.step(Operation::Rol(Accumulator)).unwrap();
    assert_eq!(m.acc, 0x01);
    assert!(m.flags.carry);

    let mut n = fresh();
    n.set_acc(0x01);
    n.flags.carry = true;
    n.step(Operation::Ror(Accumulator)).unwrap();
    assert_eq!(n.acc, 0x80);
    assert!(n.flags.carry);
}

#[test]
fn shift_through_memory_writes_back() {
    let mut m = fresh();
    m.write_memory(0x20, 0x41).unwrap();
    m.step(Operation::Asl(ZeroPage(0x20, Index::NoIndex))).unwrap();
    assert_eq!(m.read_memory(0x20).unwrap(), 0x82);
    assert!(!m.flags.carry);
    assert!(m.flags.negative);
}

#[test]
fn inc_and_dec_wrap() {
    let mut m = fresh();
    m.write_memory(0x30, 0xFF).unwrap();
    m.step(Operation::Inc(ZeroPage(0x30, Index::NoIndex))).unwrap();
    assert_eq!(m.read_memory(0x30).unwrap(), 0x00);
    assert!(m.flags.zero);
    m.step(Operation::Dec(ZeroPage(0x30, Index::NoIndex))).unwrap();
    assert_eq!(m.read_memory(0x30).unwrap(), 0xFF);
    assert!(m.flags.negative);
}

#[test]
fn stores_write_registers_to_memory() {
    let mut m = fresh();
    m.set_acc(0x11);
    m.set_x(0x22);
    m.set_y(0x33);
    m.step(Operation::Sta(Absolute(0x300, Index::NoIndex))).unwrap();
    m.step(Operation::Stx(Absolute(0x301, Index::NoIndex))).unwrap();
    m.step(Operation::Sty(Absolute(0x302, Index::NoIndex))).unwrap();
    assert_eq!(m.read_memory(0x300).unwrap(), 0x11);
    assert_eq!(m.read_memory(0x301).unwrap(), 0x22);
    assert_eq!(m.read_memory(0x302).unwrap(), 0x33);
    assert!(m.display_dirty);
}

#[test]
fn store_out_of_bounds_fails() {
    let mut m = fresh();
    assert_eq!(
        m.step(Operation::Sta(Absolute(0x900, Index::NoIndex))),
        Err(EmuError::OutOfBounds)
    );
}

#[test]
fn branch_not_taken_falls_through() {
    // BNE after a comparison that sets ZERO does not jump.
    let mut m = fresh();
    m.pc = 0x602;
    m.bpc = 0x600;
    m.set_acc(5);
    m.step(Operation::Cmp(Immediate(5))).unwrap();
    assert!(m.flags.zero);
    m.pc = 0x604;
    m.bpc = 0x602;
    m.step(Operation::Bne(Relative(0x10))).unwrap();
    assert_eq!(m.pc, 0x604);
    assert_eq!(m.bpc, 0x604);
}

#[test]
fn branch_taken_jumps_relative_to_instruction_start() {
    // BNE after a comparison that clears ZERO jumps to the instruction
    // start plus the offset.
    let mut m = fresh();
    m.set_acc(5);
    m.step(Operation::Cmp(Immediate(6))).unwrap();
    assert!(!m.flags.zero);
    m.pc = 0x604;
    m.bpc = 0x602;
    m.step(Operation::Bne(Relative(0x10))).unwrap();
    assert_eq!(m.pc, 0x612);
    assert_eq!(m.bpc, 0x612);
}

#[test]
fn branch_backwards_below_zero_fails() {
    let mut m = fresh();
    m.pc = 0x2;
    m.bpc = 0x0;
    m.flags.zero = false;
    assert_eq!(
        m.step(Operation::Bne(Relative(-5))),
        Err(EmuError::AddressCalculation)
    );
}

#[test]
fn branch_flavors_test_their_flags() {
    let mut m = fresh();
    m.pc = 0x602;
    m.bpc = 0x600;
    m.flags.negative = false;
    m.step(Operation::Bpl(Relative(4))).unwrap();
    assert_eq!(m.pc, 0x604);
    m.flags.carry = true;
    m.pc = 0x606;
    m.bpc = 0x604;
    m.step(Operation::Bcs(Relative(2))).unwrap();
    assert_eq!(m.pc, 0x606);
    m.flags.overflow = true;
    m.pc = 0x608;
    m.bpc = 0x606;
    m.step(Operation::Bvc(Relative(8))).unwrap();
    assert_eq!(m.pc, 0x608); // not taken: falls through
    assert_eq!(m.bpc, 0x608);
}

#[test]
fn jmp_transfers_control() {
    let mut m = fresh();
    m.step(Operation::Jmp(Absolute(0x700, Index::NoIndex))).unwrap();
    assert_eq!(m.pc, 0x700);
    assert_eq!(m.bpc, 0x700);
    assert_eq!(
        m.step(Operation::Jmp(Absolute(3000, Index::NoIndex))),
        Err(EmuError::InvalidTarget)
    );
}

#[test]
fn jsr_and_rts_round_trip() {
    let mut m = fresh();
    m.pc = 0x605;
    m.bpc = 0x602;
    m.step(Operation::Jsr(Absolute(0x700, Index::NoIndex))).unwrap();
    assert_eq!(m.pc, 0x700);
    m.step(Operation::Rts).unwrap();
    assert_eq!(m.pc, 0x605);
    assert_eq!(m.bpc, 0x605);
    assert_eq!(m.sp, 0xFF);
}

#[test]
fn brk_pushes_state_and_jumps_through_vector() {
    let mut m = fresh();
    m.memory[0x7FE] = 0x00;
    m.memory[0x7FF] = 0x07; // vector -> 0x700
    m.pc = 0x612;
    m.bpc = 0x610;
    m.flags.carry = true;
    m.step(Operation::Brk).unwrap();
    assert_eq!(m.pc, 0x700);
    assert!(m.flags.interrupt_disable);
    // The pushed status byte carries the forced BREAK bit.
    let status = m.stack_pop().unwrap();
    assert_eq!(status & 0x10, 0x10);
    assert_eq!(status & 0x01, 0x01);
    // Below it sits the pushed program counter.
    assert_eq!(m.stack_pop_u16().unwrap(), 0x612);
}

#[test]
fn rti_restores_flags_and_counter() {
    let mut m = fresh();
    m.pc = 0x640;
    m.stack_push_u16(0x640).unwrap();
    m.stack_push(0x81).unwrap(); // carry + negative
    m.flags.carry = false;
    m.pc = 0x700;
    m.step(Operation::Rti).unwrap();
    assert!(m.flags.carry);
    assert!(m.flags.negative);
    assert_eq!(m.pc, 0x640);
    assert_eq!(m.bpc, 0x640);
}

#[test]
fn transfers_move_registers_and_flags() {
    let mut m = fresh();
    m.set_acc(0x80);
    m.step(Operation::Tax).unwrap();
    assert_eq!(m.x, 0x80);
    assert!(m.flags.negative);
    m.set_x(0x00);
    m.step(Operation::Txa).unwrap();
    assert_eq!(m.acc, 0x00);
    assert!(m.flags.zero);
    m.set_acc(0x05);
    m.step(Operation::Tay).unwrap();
    assert_eq!(m.y, 0x05);
    m.step(Operation::Txs).unwrap();
    assert_eq!(m.sp, 0x00);
    m.step(Operation::Tsx).unwrap();
    assert_eq!(m.x, 0x00);
    assert!(m.flags.zero);
}

#[test]
fn increments_and_decrements_wrap_registers() {
    let mut m = fresh();
    m.set_x(0xFF);
    m.step(Operation::Inx).unwrap();
    assert_eq!(m.x, 0x00);
    assert!(m.flags.zero);
    m.step(Operation::Dex).unwrap();
    assert_eq!(m.x, 0xFF);
    assert!(m.flags.negative);
    m.set_y(0x00);
    m.step(Operation::Dey).unwrap();
    assert_eq!(m.y, 0xFF);
    m.step(Operation::Iny).unwrap();
    assert_eq!(m.y, 0x00);
}

#[test]
fn flag_instructions_set_and_clear() {
    let mut m = fresh();
    m.step(Operation::Sec).unwrap();
    assert!(m.flags.carry);
    m.step(Operation::Clc).unwrap();
    assert!(!m.flags.carry);
    m.step(Operation::Sei).unwrap();
    assert!(m.flags.interrupt_disable);
    m.step(Operation::Cli).unwrap();
    assert!(!m.flags.interrupt_disable);
    m.step(Operation::Sed).unwrap();
    assert!(m.flags.decimal);
    m.step(Operation::Cld).unwrap();
    assert!(!m.flags.decimal);
    m.flags.overflow = true;
    m.step(Operation::Clv).unwrap();
    assert!(!m.flags.overflow);
}

#[test]
fn push_and_pull_accumulator() {
    let mut m = fresh();
    m.set_acc(0x7A);
    m.step(Operation::Pha).unwrap();
    m.set_acc(0x00);
    m.step(Operation::Pla).unwrap();
    assert_eq!(m.acc, 0x7A);
    assert!(!m.flags.zero);
}

#[test]
fn push_and_pull_status() {
    let mut m = fresh();
    m.flags.carry = true;
    m.flags.overflow = true;
    m.step(Operation::Php).unwrap();
    m.flags.carry = false;
    m.flags.overflow = false;
    m.step(Operation::Plp).unwrap();
    assert!(m.flags.carry);
    assert!(m.flags.overflow);
    // PHP pushes the status with the BREAK bit forced on.
    assert!(m.flags.brk);
}

#[test]
fn halt_stops_without_touching_state() {
    let mut m = fresh();
    m.set_acc(9);
    m.pc = 0x608;
    m.bpc = 0x604;
    assert_eq!(m.step(Operation::Halt).unwrap(), Status::Halt);
    assert_eq!(m.acc, 9);
    assert_eq!(m.pc, 0x608);
    assert_eq!(m.bpc, 0x604);
}

#[test]
fn indexed_modes_resolve_against_registers() {
    let mut m = fresh();
    m.set_x(3);
    m.write_memory(0x13, 0x55).unwrap();
    assert_eq!(m.get_operand_value(ZeroPage(0x10, Index::X)).unwrap(), 0x55);
    m.set_y(2);
    m.write_memory(0x402, 0x66).unwrap();
    assert_eq!(m.get_operand_value(Absolute(0x400, Index::Y)).unwrap(), 0x66);
}

#[test]
fn indexed_indirect_wraps_in_zero_page() {
    let mut m = fresh();
    m.set_x(0x05);
    // 0xFD + 0x05 wraps to 0x02 within the zero page.
    m.write_memory(0x02, 0x34).unwrap();
    m.write_memory(0x03, 0x02).unwrap(); // pointer -> 0x234
    m.write_memory(0x234, 0x77).unwrap();
    assert_eq!(m.get_operand_value(IndexedIndirect(0xFD)).unwrap(), 0x77);
}

#[test]
fn indirect_indexed_adds_y_after_dereference() {
    let mut m = fresh();
    m.set_y(0x04);
    m.write_memory(0x40, 0x00).unwrap();
    m.write_memory(0x41, 0x03).unwrap(); // pointer -> 0x300
    m.write_memory(0x304, 0x88).unwrap();
    assert_eq!(m.get_operand_value(IndirectIndexed(0x40)).unwrap(), 0x88);
}

#[test]
fn immediate_operand_is_the_value_itself() {
    let m = fresh();
    assert_eq!(m.get_operand(Immediate(0x42)).unwrap(), Operand::Value(0x42));
}

#[test]
fn operand_read_beyond_memory_fails() {
    let m = fresh();
    assert_eq!(
        m.get_operand_value(Absolute(0x7FF0, Index::NoIndex)),
        Err(EmuError::OutOfBounds)
    );
}

#[test]
fn brk_with_one_stack_slot_leaves_partial_push() {
    let mut m = fresh();
    m.sp = 1;
    m.pc = 0x612;
    assert_eq!(m.step(Operation::Brk), Err(EmuError::StackOverflow));
    assert_eq!(m.sp, 0);
    // The high byte of the counter landed before the push failed.
    assert_eq!(m.memory[0x101], 0x06);
}

#[test]
fn brk_with_no_stack_space_changes_nothing() {
    let mut m = fresh();
    m.sp = 0;
    m.pc = 0x612;
    assert_eq!(m.step(Operation::Brk), Err(EmuError::StackOverflow));
    assert_eq!(m.sp, 0);
    assert_eq!(m.pc, 0x612);
}

#[test]
fn jsr_to_invalid_target_keeps_pushed_counter() {
    let mut m = fresh();
    m.pc = 0x605;
    assert_eq!(
        m.step(Operation::Jsr(Absolute(3000, Index::NoIndex))),
        Err(EmuError::InvalidTarget)
    );
    assert_eq!(m.sp, 0xFD);
    assert_eq!(m.stack_pop_u16().unwrap(), 0x605);
}

#[test]
fn rti_on_empty_stack_underflows() {
    let mut m = fresh();
    assert_eq!(m.step(Operation::Rti), Err(EmuError::StackUnderflow));
    assert_eq!(m.sp, 0xFF);
}

#[test]
fn push_on_full_stack_overflows() {
    let mut m = fresh();
    m.sp = 0;
    assert_eq!(m.step(Operation::Pha), Err(EmuError::StackOverflow));
    assert_eq!(m.step(Operation::Php), Err(EmuError::StackOverflow));
    let mut n = fresh();
    assert_eq!(n.step(Operation::Pla), Err(EmuError::StackUnderflow));
    assert_eq!(n.step(Operation::Plp), Err(EmuError::StackUnderflow));
}
