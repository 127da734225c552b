use mos6502::decode::{parse_opcode, Cursor, SliceCursor};
use mos6502::display::color;
use mos6502::instr::AddressingMode::{Absolute, Accumulator, Immediate, Relative, ZeroPage};
use mos6502::instr::{Index, Operation};
use mos6502::machine::{EmuError, Machine};
use mos6502::report::string_to_err;
use mos6502::run::{BootOutcome, CycleOutcome};

#[test]
fn decode_lda_immediate() {
    let bytes = vec![0xA9, 0x05];
    let mut cur = SliceCursor { bytes: &bytes, pos: 0 };
    let op = parse_opcode(&mut cur).unwrap().unwrap();
    assert_eq!(op, Operation::Lda(Immediate(0x05)));
    assert_eq!(cur.pos, 2);
}

#[test]
fn decode_absolute_is_little_endian() {
    let bytes = vec![0x4C, 0x34, 0x12];
    let mut cur = SliceCursor { bytes: &bytes, pos: 0 };
    let op = parse_opcode(&mut cur).unwrap().unwrap();
    assert_eq!(op, Operation::Jmp(Absolute(0x1234, Index::NoIndex)));
    assert_eq!(cur.pos, 3);
}

#[test]
fn decode_relative_is_signed() {
    let bytes = vec![0xD0, 0xFB];
    let mut cur = SliceCursor { bytes: &bytes, pos: 0 };
    let op = parse_opcode(&mut cur).unwrap().unwrap();
    assert_eq!(op, Operation::Bne(Relative(-5)));
}

#[test]
fn decode_halt_regardless_of_position() {
    // At the very start of a stream.
    let alone = vec![0xFF];
    let mut cur = SliceCursor { bytes: &alone, pos: 0 };
    assert_eq!(parse_opcode(&mut cur).unwrap().unwrap(), Operation::Halt);
    // In the middle of a stream, with arbitrary bytes around it.
    let mixed = vec![0xA9, 0x05, 0xFF, 0x13, 0x37];
    let mut cur = SliceCursor { bytes: &mixed, pos: 2 };
    assert_eq!(parse_opcode(&mut cur).unwrap().unwrap(), Operation::Halt);
    assert_eq!(cur.pos, 3);
}

#[test]
fn decode_unknown_opcode_fails() {
    let bytes = vec![0x02];
    let mut cur = SliceCursor { bytes: &bytes, pos: 0 };
    assert_eq!(parse_opcode(&mut cur), Err(EmuError::UnknownOpcode));
}

#[test]
fn decode_truncated_operand_fails() {
    let bytes = vec![0x69];
    let mut cur = SliceCursor { bytes: &bytes, pos: 0 };
    assert_eq!(parse_opcode(&mut cur), Err(EmuError::TruncatedOperand));
    // A two-byte operand cut short fails the same way.
    let bytes2 = vec![0x4C, 0x34];
    let mut cur2 = SliceCursor { bytes: &bytes2, pos: 0 };
    assert_eq!(parse_opcode(&mut cur2), Err(EmuError::TruncatedOperand));
}

#[test]
fn decode_empty_stream_is_clean_end() {
    let bytes = vec![];
    let mut cur = SliceCursor { bytes: &bytes, pos: 0 };
    assert_eq!(parse_opcode(&mut cur), Ok(None));
    assert_eq!(cur.pos, 0);
}

#[test]
fn decode_brk_consumes_padding_byte() {
    let bytes = vec![0x00, 0x55, 0xFF];
    let mut cur = SliceCursor { bytes: &bytes, pos: 0 };
    assert_eq!(parse_opcode(&mut cur).unwrap().unwrap(), Operation::Brk);
    assert_eq!(cur.pos, 2);
}

#[test]
fn decode_rotate_opcodes() {
    let left = vec![0x2A];
    let mut cur = SliceCursor { bytes: &left, pos: 0 };
    assert_eq!(
        parse_opcode(&mut cur).unwrap().unwrap(),
        Operation::Rol(Accumulator)
    );
    let right = vec![0x6A];
    let mut cur = SliceCursor { bytes: &right, pos: 0 };
    assert_eq!(
        parse_opcode(&mut cur).unwrap().unwrap(),
        Operation::Ror(Accumulator)
    );
    let right_zp = vec![0x66, 0x44];
    let mut cur = SliceCursor { bytes: &right_zp, pos: 0 };
    assert_eq!(
        parse_opcode(&mut cur).unwrap().unwrap(),
        Operation::Ror(ZeroPage(0x44, Index::NoIndex))
    );
}

#[test]
fn decode_stx_zero_page_indexes_by_y() {
    let bytes = vec![0x96, 0x10];
    let mut cur = SliceCursor { bytes: &bytes, pos: 0 };
    assert_eq!(
        parse_opcode(&mut cur).unwrap().unwrap(),
        Operation::Stx(ZeroPage(0x10, Index::Y))
    );
}

#[test]
fn fetch_consults_the_random_source() {
    // An instruction fetch at the reserved address must go through the bus:
    // the stored byte there (NOP) is never what executes. A NOP cycle would
    // leave everything but the counters untouched; the random opcodes in
    // [1, 16) all behave differently or fail to decode.
    for _ in 0..100 {
        let mut m = Machine::new();
        m.memory[0xFE] = 0xEA;
        m.pc = 0xFE;
        m.bpc = 0xFE;
        let outcome = m.step_cycle();
        let behaved_like_nop = outcome == Ok(CycleOutcome::Ran) && m.pc == 0xFF && m.sp == 0xFF
            && !m.flags.zero && m.acc == 0;
        assert!(!behaved_like_nop);
    }
}

#[test]
fn cursor_helpers_read_in_order() {
    let bytes = vec![0x34, 0x12, 0x80];
    let mut cur = SliceCursor { bytes: &bytes, pos: 0 };
    assert_eq!(cur.need_u16().unwrap(), 0x1234);
    assert_eq!(cur.need_i8().unwrap(), -128);
    assert_eq!(cur.need_u8(), Err(EmuError::TruncatedOperand));
}

#[test]
fn cursor_next_2_consumes_partial_tail() {
    let bytes = vec![0x01];
    let mut cur = SliceCursor { bytes: &bytes, pos: 0 };
    assert_eq!(cur.next_2(), None);
    assert_eq!(cur.pos, 1);
}

#[test]
fn boot_runs_lda_then_halt() {
    // LDA #$00; HALT: accumulator 0, ZERO set, clean stop.
    let mut m = Machine::new();
    m.load_jmp(0x600, &[0xA9, 0x00, 0xFF]).unwrap();
    assert_eq!(m.boot(1000).unwrap(), BootOutcome::Halted);
    assert_eq!(m.acc, 0x00);
    assert!(m.flags.zero);
}

#[test]
fn boot_runs_lda_adc_then_halt() {
    // LDA #$05; ADC #$03; HALT: accumulator 8, all four flags clear.
    let mut m = Machine::new();
    m.load_jmp(0x600, &[0xA9, 0x05, 0x69, 0x03, 0xFF]).unwrap();
    assert_eq!(m.boot(1000).unwrap(), BootOutcome::Halted);
    assert_eq!(m.acc, 0x08);
    assert!(!m.flags.carry);
    assert!(!m.flags.overflow);
    assert!(!m.flags.zero);
    assert!(!m.flags.negative);
}

#[test]
fn boot_surfaces_unknown_opcode() {
    let mut m = Machine::new();
    m.load_jmp(0x600, &[0x02]).unwrap();
    assert_eq!(m.boot(1000), Err(EmuError::UnknownOpcode));
}

#[test]
fn step_cycle_reports_end_of_stream() {
    let mut m = Machine::new();
    m.load_jmp(2045, &[0xA9, 0x07, 0xEA]).unwrap();
    assert_eq!(m.step_cycle().unwrap(), CycleOutcome::Ran);
    assert_eq!(m.acc, 0x07);
    assert_eq!(m.step_cycle().unwrap(), CycleOutcome::Ran);
    assert_eq!(m.pc, 2048);
    assert_eq!(m.step_cycle().unwrap(), CycleOutcome::EndOfStream);
    assert_eq!(m.pc, 2048);
}

#[test]
fn step_cycle_truncated_at_memory_edge() {
    let mut m = Machine::new();
    m.memory[2047] = 0x69;
    m.pc = 2047;
    m.bpc = 2047;
    assert_eq!(m.step_cycle(), Err(EmuError::TruncatedOperand));
}

#[test]
fn boot_with_zero_budget_stops_untouched() {
    let mut m = Machine::new();
    m.load_jmp(0x600, &[0xEA, 0xEA, 0xFF]).unwrap();
    assert_eq!(m.boot(0).unwrap(), BootOutcome::Stopped);
    assert_eq!(m.pc, 0x600);
    assert!(m.running);
}

#[test]
fn boot_with_spent_budget_stops_mid_program() {
    let mut m = Machine::new();
    m.load_jmp(0x600, &[0xEA, 0xEA, 0xFF]).unwrap();
    // Two cycles run the two NOPs; the halt needs a third.
    assert_eq!(m.boot(2).unwrap(), BootOutcome::Stopped);
    assert_eq!(m.pc, 0x602);
    assert_eq!(m.boot(1).unwrap(), BootOutcome::Halted);
}

#[test]
fn display_renders_palette() {
    let mut m = Machine::new();
    m.write_memory(0x200, 1).unwrap(); // white
    m.write_memory(0x201, 3).unwrap(); // red
    m.write_memory(0x202, 9).unwrap(); // aliases to gray
    assert!(m.display_dirty);
    m.display().unwrap();
    assert!(!m.display_dirty);
    assert_eq!(&m.display_buffer[0..3], &[255, 255, 255]);
    assert_eq!(&m.display_buffer[3..6], &[255, 0, 0]);
    assert_eq!(&m.display_buffer[6..9], &[128, 128, 128]);
    // A clean display is left untouched.
    m.display_buffer[0] = 9;
    m.display().unwrap();
    assert_eq!(m.display_buffer[0], 9);
}

#[test]
fn color_palette_values() {
    assert_eq!(color(0), (0, 0, 0));
    assert_eq!(color(1), (255, 255, 255));
    assert_eq!(color(2), (128, 128, 128));
    assert_eq!(color(4), (0, 255, 0));
    assert_eq!(color(5), (0, 0, 255));
    assert_eq!(color(6), (255, 0, 255));
    assert_eq!(color(7), (255, 255, 0));
    assert_eq!(color(8), (0, 255, 255));
    assert_eq!(color(14), (255, 255, 0));
    assert_eq!(color(255), (0, 255, 255));
}

#[test]
fn string_to_err_keeps_message() {
    let e = string_to_err(String::from("window failed"));
    assert_eq!(format!("{}", e), "window failed");
}

#[test]
fn subroutine_call_runs_and_returns() {
    // A call into a small routine that stores a byte in the zero page and
    // returns; the halt sentinel sits at the fall-through address.
    let program = [
        0x20, 0x07, 0x06, // 0x600: JSR $0607
        0xFF, //             0x603: HALT
        0x00, 0x00, 0x00, //        padding
        0xA9, 0x02, //       0x607: LDA #$02
        0x85, 0x02, //       0x609: STA $02
        0x60, //             0x60B: RTS
    ];
    let mut m = Machine::new();
    m.load_jmp(0x600, &program).unwrap();
    assert_eq!(m.step_cycle().unwrap(), CycleOutcome::Ran); // JSR
    assert_eq!(m.pc, 0x607);
    assert_eq!(m.step_cycle().unwrap(), CycleOutcome::Ran); // LDA #2
    assert_eq!(m.step_cycle().unwrap(), CycleOutcome::Ran); // STA $02
    assert_eq!(m.read_memory(0x02).unwrap(), 0x02);
    assert_eq!(m.step_cycle().unwrap(), CycleOutcome::Ran); // RTS
    assert_eq!(m.pc, 0x603);
    assert_eq!(m.step_cycle().unwrap(), CycleOutcome::Halted);
}
