use mos6502::machine::{EmuError, Machine, DISPLAY_BUFFER_LEN, MEMORY_SIZE};

#[test]
fn write_then_read_round_trips() {
    let mut m = Machine::new();
    for addr in [0usize, 0x123, 0x200, 0x5FF, 0x7FF] {
        m.write_memory(addr, 0xAB).unwrap();
        assert_eq!(m.read_memory(addr).unwrap(), 0xAB);
    }
}

#[test]
fn read_out_of_bounds_fails() {
    let m = Machine::new();
    assert_eq!(m.read_memory(MEMORY_SIZE), Err(EmuError::OutOfBounds));
    assert_eq!(m.read_memory(5000), Err(EmuError::OutOfBounds));
}

#[test]
fn write_out_of_bounds_fails() {
    let mut m = Machine::new();
    assert_eq!(m.write_memory(MEMORY_SIZE, 1), Err(EmuError::OutOfBounds));
    assert_eq!(m.write_memory(usize::MAX, 1), Err(EmuError::OutOfBounds));
}

#[test]
fn random_source_yields_nibbles() {
    let m = Machine::new();
    for _ in 0..200 {
        let v = m.read_memory(0xFE).unwrap();
        assert!((1..16).contains(&v));
    }
}

#[test]
fn random_source_ignores_stored_byte() {
    let mut m = Machine::new();
    m.memory[0xFE] = 0xEE;
    for _ in 0..50 {
        let v = m.read_memory(0xFE).unwrap();
        assert!((1..16).contains(&v));
    }
}

#[test]
fn read_u16_is_little_endian() {
    let mut m = Machine::new();
    m.write_memory(0x300, 0x34).unwrap();
    m.write_memory(0x301, 0x12).unwrap();
    assert_eq!(m.read_memory_u16(0x300).unwrap(), 0x1234);
}

#[test]
fn read_u16_at_memory_edge_fails() {
    let m = Machine::new();
    assert_eq!(m.read_memory_u16(MEMORY_SIZE - 1), Err(EmuError::OutOfBounds));
    assert_eq!(m.read_memory_u16(MEMORY_SIZE), Err(EmuError::OutOfBounds));
}

#[test]
fn display_write_sets_dirty_only_on_change() {
    let mut m = Machine::new();
    assert!(!m.display_dirty);
    // Writing the byte already present does not raise the signal.
    m.write_memory(0x200, 0).unwrap();
    assert!(!m.display_dirty);
    // A different byte raises it.
    m.write_memory(0x200, 7).unwrap();
    assert!(m.display_dirty);
    m.display_dirty = false;
    // Rewriting the same byte leaves it down.
    m.write_memory(0x200, 7).unwrap();
    assert!(!m.display_dirty);
    // Writes outside the region never raise it.
    m.write_memory(0x1FF, 9).unwrap();
    m.write_memory(0x600, 9).unwrap();
    assert!(!m.display_dirty);
}

#[test]
fn load_copies_image() {
    let mut m = Machine::new();
    m.load(0x600, &[1, 2, 3]).unwrap();
    assert_eq!(m.read_memory(0x600).unwrap(), 1);
    assert_eq!(m.read_memory(0x601).unwrap(), 2);
    assert_eq!(m.read_memory(0x602).unwrap(), 3);
    assert_eq!(m.pc, 0);
}

#[test]
fn load_rejects_images_that_do_not_fit() {
    let mut m = Machine::new();
    assert_eq!(m.load(2041, &[0; 8]), Err(EmuError::OutOfBounds));
    assert_eq!(m.load(MEMORY_SIZE, &[1]), Err(EmuError::OutOfBounds));
    assert_eq!(m.load(2047, &[1, 1]), Err(EmuError::OutOfBounds));
}

#[test]
fn load_accepts_an_exact_fit() {
    let mut m = Machine::new();
    // An image ending flush against the last byte fits.
    m.load(2040, &[1, 2, 3, 4, 5, 6, 7, 8]).unwrap();
    assert_eq!(m.read_memory(2047).unwrap(), 8);
    m.load(2047, &[9]).unwrap();
    assert_eq!(m.read_memory(2047).unwrap(), 9);
    let whole = vec![3u8; MEMORY_SIZE];
    m.load(0, &whole).unwrap();
    assert_eq!(m.read_memory(0).unwrap(), 3);
    assert_eq!(m.read_memory(2047).unwrap(), 3);
}

#[test]
fn load_jmp_sets_entry_point() {
    let mut m = Machine::new();
    m.load_jmp(0x600, &[0xA9, 0x00, 0xFF]).unwrap();
    assert_eq!(m.pc, 0x600);
    assert_eq!(m.bpc, 0x600);
}

#[test]
fn reset_clears_state() {
    let mut m = Machine::new();
    m.acc = 9;
    m.x = 9;
    m.y = 9;
    m.sp = 3;
    m.pc = 77;
    m.bpc = 77;
    m.flags.carry = true;
    m.write_memory(0x300, 5).unwrap();
    m.reset();
    assert_eq!(m.acc, 0);
    assert_eq!(m.x, 0);
    assert_eq!(m.y, 0);
    assert_eq!(m.sp, 0xFF);
    assert_eq!(m.pc, 0);
    assert_eq!(m.bpc, 0);
    assert!(!m.flags.carry);
    assert_eq!(m.read_memory(0x300).unwrap(), 0);
    assert!(m.display_dirty);
    assert_eq!(m.display_buffer.len(), DISPLAY_BUFFER_LEN);
}
