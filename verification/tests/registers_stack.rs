use mos6502::flags::Flags;
use mos6502::machine::{EmuError, Machine};
use mos6502::{is_negative, sign_bit};

#[test]
fn loads_update_zero_and_negative() {
    let mut m = Machine::new();
    m.set_acc(0);
    assert!(m.flags.zero);
    assert!(!m.flags.negative);
    m.set_acc(0x80);
    assert!(!m.flags.zero);
    assert!(m.flags.negative);
    m.set_x(5);
    assert!(!m.flags.zero);
    assert!(!m.flags.negative);
    m.set_y(0xFF);
    assert!(!m.flags.zero);
    assert!(m.flags.negative);
}

#[test]
fn sign_bit_and_is_negative_agree() {
    assert_eq!(sign_bit(0x00), 0);
    assert_eq!(sign_bit(0x7F), 0);
    assert_eq!(sign_bit(0x80), 1);
    assert_eq!(sign_bit(0xFF), 1);
    assert!(!is_negative(0x7F));
    assert!(is_negative(0x80));
}

#[test]
fn stack_u16_round_trip() {
    let mut m = Machine::new();
    m.stack_push_u16(0xBEEF).unwrap();
    assert_eq!(m.sp, 0xFD);
    assert_eq!(m.stack_pop_u16().unwrap(), 0xBEEF);
    assert_eq!(m.sp, 0xFF);
}

#[test]
fn stack_byte_round_trip() {
    let mut m = Machine::new();
    m.stack_push(0x42).unwrap();
    assert_eq!(m.sp, 0xFE);
    assert_eq!(m.stack_pop().unwrap(), 0x42);
    assert_eq!(m.sp, 0xFF);
}

#[test]
fn stack_overflows_at_low_bound() {
    let mut m = Machine::new();
    // The window admits 255 pushes (the slot at the low bound is never
    // written); the next push overflows.
    for i in 0..255u32 {
        assert!(m.stack_push(i as u8).is_ok());
    }
    assert_eq!(m.stack_push(0), Err(EmuError::StackOverflow));
}

#[test]
fn stack_underflows_when_empty() {
    let mut m = Machine::new();
    assert_eq!(m.stack_pop(), Err(EmuError::StackUnderflow));
    assert_eq!(m.stack_pop_u16(), Err(EmuError::StackUnderflow));
}

#[test]
fn flag_byte_round_trips() {
    let f = Flags {
        carry: true,
        zero: false,
        interrupt_disable: true,
        decimal: false,
        brk: true,
        overflow: false,
        negative: true,
    };
    let b = f.bits();
    assert_eq!(b, 0x01 | 0x04 | 0x10 | 0x80);
    assert_eq!(Flags::from_bits_truncate(b), f);
    // The undefined bit 5 is dropped on restore.
    assert_eq!(Flags::from_bits_truncate(b | 0x20), f);
}

#[test]
fn store_and_restore_flags() {
    let mut m = Machine::new();
    m.flags.carry = true;
    m.flags.negative = true;
    let forced = Flags {
        brk: true,
        ..Flags::empty()
    };
    m.store_flag_with(forced).unwrap();
    m.flags = Flags::empty();
    m.restore_flag().unwrap();
    assert!(m.flags.carry);
    assert!(m.flags.negative);
    assert!(m.flags.brk);
    assert!(!m.flags.zero);
}

#[test]
fn store_and_restore_pc() {
    let mut m = Machine::new();
    m.pc = 0x655;
    m.store_pc().unwrap();
    m.pc = 0;
    m.bpc = 0;
    m.restore_pc().unwrap();
    assert_eq!(m.pc, 0x655);
    assert_eq!(m.bpc, 0x655);
}

#[test]
fn restore_pc_rejects_out_of_bounds_target() {
    let mut m = Machine::new();
    m.stack_push_u16(0x900).unwrap();
    assert_eq!(m.restore_pc(), Err(EmuError::InvalidTarget));
}

#[test]
fn goto_bounds_checked() {
    let mut m = Machine::new();
    m.goto(0x7FF).unwrap();
    assert_eq!(m.pc, 0x7FF);
    assert_eq!(m.bpc, 0x7FF);
    assert_eq!(m.goto(0x800), Err(EmuError::InvalidTarget));
}
