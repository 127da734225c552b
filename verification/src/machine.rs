use vstd::prelude::*;

use crate::flags::Flags;
use rand::Rng;

verus! {

/// Size of the addressable memory: a deliberately bounded working set, not
/// the full 64 KiB of the emulated processor.
pub const MEMORY_SIZE: usize = 2048;

/// Base of the 256-byte stack window.
pub const STACK: usize = 0x100;

/// Reads of this reserved address yield a fresh pseudo-random value in
/// [1, 16) instead of the stored byte.
pub const RAND_ADDR: usize = 0xFE;

/// The input source deposits the last keypress code at this address.
pub const KEY_ADDR: usize = 0xFF;

/// The software-interrupt vector: two little-endian bytes near the top of
/// memory holding the jump target of BRK.
pub const IRQ_VECTOR: usize = 0x7FE;

/// First address of the 32x32 display region.
pub const DISPLAY_START: usize = 0x200;

/// One past the last address of the display region.
pub const DISPLAY_END: usize = 0x600;

/// Length of the rendered RGB snapshot: three channel bytes per display cell.
pub const DISPLAY_BUFFER_LEN: usize = 3072;

/// Every failure the core can raise. All are terminal for the run loop.
#[derive(Clone, Copy, Debug, PartialEq, Eq, Structural)]
pub enum EmuError {
    /// An address at or beyond the memory size, on read or write.
    OutOfBounds,
    /// Checked arithmetic overflowed while resolving an addressing mode.
    AddressCalculation,
    /// An opcode byte that is not in the dispatch table.
    UnknownOpcode,
    /// The byte stream ended before the required operand bytes.
    TruncatedOperand,
    /// A push with the stack pointer at its low bound.
    StackOverflow,
    /// A pop with the stack pointer at its high bound.
    StackUnderflow,
    /// A jump, call, return or taken branch to an out-of-bounds target.
    InvalidTarget,
}

/// A resolved addressing result: either an immediate byte used directly, or
/// a memory address that must be re-read or written through the bus.
#[derive(Clone, Copy, Debug, PartialEq, Eq, Structural)]
pub enum Operand {
    Value(u8),
    Address(usize),
}

/// What one executed instruction tells the run loop.
#[derive(Clone, Copy, Debug, PartialEq, Eq, Structural)]
pub enum Status {
    Halt,
    Cont,
}

/// The mathematical image of a `Machine`: the same registers and flags, with
/// memory and the display snapshot as sequences and the counters widened.
#[verifier::ext_equal]
pub ghost struct MState {
    pub running: bool,
    pub acc: u8,
    pub x: u8,
    pub y: u8,
    pub flags: Flags,
    pub sp: u8,
    pub pc: int,
    pub bpc: int,
    pub memory: Seq<u8>,
    pub display_buffer: Seq<u8>,
    pub display_dirty: bool,
}

impl MState {
    /// Well-formedness: the memory and snapshot lengths are fixed, and both
    /// counters stay within (or just past) memory.
    pub open spec fn wf(self) -> bool {
        &&& self.memory.len() == MEMORY_SIZE
        &&& 0 <= self.pc <= MEMORY_SIZE
        &&& 0 <= self.bpc <= MEMORY_SIZE
        &&& self.display_buffer.len() == DISPLAY_BUFFER_LEN
    }

    /// What a read of `addr` may return: the stored byte everywhere except
    /// the reserved random-source address, where any value in [1, 16) may
    /// come back.
    pub open spec fn read_ok(self, addr: int, b: u8) -> bool {
        if addr == RAND_ADDR {
            1 <= b < 16
        } else {
            0 <= addr < MEMORY_SIZE && b == self.memory[addr]
        }
    }

    /// What a two-byte little-endian read starting at `addr` may return.
    pub open spec fn read16_ok(self, addr: int, v: u16) -> bool {
        exists|lsb: u8, msb: u8|
            #![trigger self.read_ok(addr, lsb), self.read_ok(addr + 1, msb)]
            self.read_ok(addr, lsb) && self.read_ok(addr + 1, msb) && v == lsb + 256 * msb
    }

    /// The state after a store: the byte replaced, and the dirty signal
    /// raised when a different byte lands in the display region.
    pub open spec fn written(self, addr: int, value: u8) -> MState {
        MState {
            memory: self.memory.update(addr, value),
            display_dirty: self.display_dirty || (DISPLAY_START <= addr < DISPLAY_END
                && self.memory[addr] != value),
            ..self
        }
    }

    /// Commit the already-advanced program counter as the new instruction
    /// base.
    pub open spec fn advanced(self) -> MState {
        MState { bpc: self.pc, ..self }
    }

    /// A control transfer: both counters point at the target.
    pub open spec fn jumped(self, target: int) -> MState {
        MState { pc: target, bpc: target, ..self }
    }

    /// Zero and negative recomputed from a freshly written register value.
    pub open spec fn zn(f: Flags, v: u8) -> Flags {
        Flags { zero: v == 0, negative: v >= 0x80, ..f }
    }

    /// The same state with the flag set replaced.
    pub open spec fn with_flags(self, f: Flags) -> MState {
        MState { flags: f, ..self }
    }

    pub open spec fn with_carry(self, b: bool) -> MState {
        self.with_flags(Flags { carry: b, ..self.flags })
    }

    pub open spec fn with_zero(self, b: bool) -> MState {
        self.with_flags(Flags { zero: b, ..self.flags })
    }

    pub open spec fn with_interrupt_disable(self, b: bool) -> MState {
        self.with_flags(Flags { interrupt_disable: b, ..self.flags })
    }

    pub open spec fn with_decimal(self, b: bool) -> MState {
        self.with_flags(Flags { decimal: b, ..self.flags })
    }

    pub open spec fn with_overflow(self, b: bool) -> MState {
        self.with_flags(Flags { overflow: b, ..self.flags })
    }

    pub open spec fn with_negative(self, b: bool) -> MState {
        self.with_flags(Flags { negative: b, ..self.flags })
    }

    pub open spec fn with_acc(self, v: u8) -> MState {
        MState { acc: v, flags: MState::zn(self.flags, v), ..self }
    }

    pub open spec fn with_x(self, v: u8) -> MState {
        MState { x: v, flags: MState::zn(self.flags, v), ..self }
    }

    pub open spec fn with_y(self, v: u8) -> MState {
        MState { y: v, flags: MState::zn(self.flags, v), ..self }
    }

    /// The state after one successful push.
    pub open spec fn pushed(self, value: u8) -> MState {
        MState { sp: (self.sp - 1) as u8, ..self.written(STACK + self.sp, value) }
    }

    /// The state after a successful 16-bit push: high byte first, then low.
    pub open spec fn pushed16(self, value: u16) -> MState {
        self.pushed((value / 256) as u8).pushed((value % 256) as u8)
    }

    /// The byte a pop returns (the stack window never overlaps the reserved
    /// random address, so pops are deterministic).
    pub open spec fn pop_value(self) -> u8 {
        self.memory[STACK + self.sp + 1]
    }

    /// The state after one successful pop.
    pub open spec fn popped(self) -> MState {
        MState { sp: (self.sp + 1) as u8, ..self }
    }

    /// The 16-bit value a pop pair returns: low byte first, then high.
    pub open spec fn pop16_value(self) -> u16 {
        (self.pop_value() + 256 * self.popped().pop_value()) as u16
    }

    /// The state `reset` leaves behind: everything zeroed as in a fresh
    /// machine, except that the running flag is kept and the display is
    /// marked for a full redraw.
    pub open spec fn reset_spec(self) -> MState {
        MState { running: self.running, display_dirty: true, ..MState::initial() }
    }

    /// The state after a program image lands at `addr`: the bytes replaced
    /// in place, everything else untouched (no display dirty tracking).
    pub open spec fn loaded(self, addr: int, data: Seq<u8>) -> MState {
        MState {
            memory: self.memory.take(addr) + data + self.memory.skip(addr + data.len()),
            ..self
        }
    }

    /// A fresh machine: everything zero, the stack pointer at its top.
    pub open spec fn initial() -> MState {
        MState {
            running: false,
            acc: 0,
            x: 0,
            y: 0,
            flags: Flags::spec_empty(),
            sp: 0xff,
            pc: 0,
            bpc: 0,
            memory: Seq::new(MEMORY_SIZE as nat, |i: int| 0u8),
            display_buffer: Seq::new(DISPLAY_BUFFER_LEN as nat, |i: int| 0u8),
            display_dirty: false,
        }
    }
}

/// The complete emulator state: registers, flags, stack pointer, the two
/// program counters (`pc` is the byte cursor, `bpc` the start of the current
/// instruction), bounded memory, and the display snapshot with its dirty
/// signal.
pub struct Machine {
    pub running: bool,
    pub acc: u8,
    pub x: u8,
    pub y: u8,
    pub flags: Flags,
    pub sp: u8,
    pub pc: usize,
    pub bpc: usize,
    pub memory: Vec<u8>,
    pub display_buffer: Vec<u8>,
    pub display_dirty: bool,
}

impl View for Machine {
    type V = MState;

    open spec fn view(&self) -> MState {
        MState {
            running: self.running,
            acc: self.acc,
            x: self.x,
            y: self.y,
            flags: self.flags,
            sp: self.sp,
            pc: self.pc as int,
            bpc: self.bpc as int,
            memory: self.memory@,
            display_buffer: self.display_buffer@,
            display_dirty: self.display_dirty,
        }
    }
}

/// Relies on rand::Rng::random_range over the non-empty range 1..16: a value
/// uniformly distributed in [1, 16), emulating a hardware noise source.
#[verifier::external_body]
fn random_nibble() -> (r: u8)
    ensures
        1 <= r < 16,
{
    rand::rng().random_range(1u8..16)
}

impl Machine {
    pub fn new() -> (m: Machine)
        ensures
            m@ == MState::initial(),
            m@.wf(),
    {
        let m = Machine {
            running: false,
            acc: 0,
            x: 0,
            y: 0,
            flags: Flags::empty(),
            sp: 0xff,
            pc: 0,
            bpc: 0,
            memory: vec![0u8; MEMORY_SIZE],
            display_buffer: vec![0u8; DISPLAY_BUFFER_LEN],
            display_dirty: false,
        };
        proof {
            assert(m@.memory =~= MState::initial().memory);
            assert(m@.display_buffer =~= MState::initial().display_buffer);
            assert(m@ =~= MState::initial());
        }
        m
    }

    /// Zero the registers, flags, memory and display snapshot, park the
    /// stack pointer at its top, and mark the display for a full redraw.
    pub fn reset(&mut self)
        requires
            old(self)@.wf(),
        ensures
            final(self)@ == old(self)@.reset_spec(),
            final(self)@.wf(),
    {
        self.acc = 0;
        self.x = 0;
        self.y = 0;
        self.flags = Flags::empty();
        self.display_buffer = vec![0u8; DISPLAY_BUFFER_LEN];
        self.display_dirty = true;
        self.sp = 0xff;
        self.pc = 0;
        self.bpc = 0;
        self.memory = vec![0u8; MEMORY_SIZE];
        proof {
            let target = old(self)@.reset_spec();
            assert(self@.memory =~= target.memory);
            assert(self@.display_buffer =~= target.display_buffer);
            assert(self@ =~= target);
        }
    }

    /// Whether an address lies within memory.
    pub fn check_addr(&self, addr: usize) -> (r: bool)
        ensures
            r == (addr < MEMORY_SIZE),
    {
        addr < MEMORY_SIZE
    }

    /// Read one byte. The reserved random-source address yields a fresh
    /// value in [1, 16) on every read; everywhere else the stored byte comes
    /// back, and addresses beyond memory fail.
    pub fn read_memory(&self, addr: usize) -> (r: Result<u8, EmuError>)
        requires
            self@.wf(),
        ensures
            addr < MEMORY_SIZE ==> (r matches Ok(b) && self@.read_ok(addr as int, b)),
            addr >= MEMORY_SIZE ==> r == Err::<u8, EmuError>(EmuError::OutOfBounds),
    {
        if addr == RAND_ADDR {
            Ok(random_nibble())
        } else if addr < MEMORY_SIZE {
            Ok(self.memory[addr])
        } else {
            Err(EmuError::OutOfBounds)
        }
    }

    /// Store one byte. A write into the display region that changes the
    /// stored byte raises the dirty signal; rewriting the same byte does not.
    pub fn write_memory(&mut self, addr: usize, value: u8) -> (r: Result<(), EmuError>)
        requires
            old(self)@.wf(),
        ensures
            final(self)@.wf(),
            addr < MEMORY_SIZE ==> r == Ok::<(), EmuError>(()) && final(self)@ == old(self)@.written(addr as int, value),
            addr >= MEMORY_SIZE ==> r == Err::<(), EmuError>(EmuError::OutOfBounds) && final(self)@ == old(self)@,
    {
        if addr < MEMORY_SIZE {
            if DISPLAY_START <= addr && addr < DISPLAY_END && self.memory[addr] != value {
                self.display_dirty = true;
            }
            self.memory[addr] = value;
            Ok(())
        } else {
            Err(EmuError::OutOfBounds)
        }
    }

    /// Read a 16-bit little-endian value from two consecutive bytes.
    pub fn read_memory_u16(&self, addr: usize) -> (r: Result<u16, EmuError>)
        requires
            self@.wf(),
        ensures
            addr + 1 < MEMORY_SIZE ==> (r matches Ok(v) && self@.read16_ok(addr as int, v)),
            addr + 1 >= MEMORY_SIZE ==> r == Err::<u16, EmuError>(EmuError::OutOfBounds),
    {
        let lsb = match self.read_memory(addr) {
            Ok(b) => b,
            Err(e) => return Err(e),
        };
        let msb = match self.read_memory(addr + 1) {
            Ok(b) => b,
            Err(e) => return Err(e),
        };
        let v: u16 = lsb as u16 + (msb as u16) * 256;
        proof {
            assert(self@.read_ok(addr as int, lsb) && self@.read_ok(addr as int + 1, msb)
                && v == lsb + 256 * msb);
        }
        Ok(v)
    }

    /// Write the accumulator and recompute zero and negative from it.
    pub fn set_acc(&mut self, value: u8)
        ensures
            final(self)@ == old(self)@.with_acc(value),
    {
        self.acc = value;
        self.update_zero_and_negative_flags(value);
    }

    /// Write X and recompute zero and negative from it.
    pub fn set_x(&mut self, value: u8)
        ensures
            final(self)@ == old(self)@.with_x(value),
    {
        self.x = value;
        self.update_zero_and_negative_flags(value);
    }

    /// Write Y and recompute zero and negative from it.
    pub fn set_y(&mut self, value: u8)
        ensures
            final(self)@ == old(self)@.with_y(value),
    {
        self.y = value;
        self.update_zero_and_negative_flags(value);
    }

    /// Zero iff the value is 0, negative iff its high bit is set.
    pub fn update_zero_and_negative_flags(&mut self, val: u8)
        ensures
            final(self)@ == old(self)@.with_flags(MState::zn(old(self)@.flags, val)),
    {
        if val == 0 {
            self.set_zero();
        } else {
            self.cls_zero();
        }
        if crate::is_negative(val) {
            self.set_negative();
        } else {
            self.cls_negative();
        }
    }

    pub fn is_carry(&self) -> (r: bool)
        ensures
            r == self.flags.carry,
    {
        self.flags.carry
    }

    pub fn set_carry(&mut self)
        ensures
            final(self)@ == old(self)@.with_carry(true),
    {
        self.flags.carry = true;
    }

    pub fn cls_carry(&mut self)
        ensures
            final(self)@ == old(self)@.with_carry(false),
    {
        self.flags.carry = false;
    }

    pub fn is_zero(&self) -> (r: bool)
        ensures
            r == self.flags.zero,
    {
        self.flags.zero
    }

    pub fn set_zero(&mut self)
        ensures
            final(self)@ == old(self)@.with_zero(true),
    {
        self.flags.zero = true;
    }

    pub fn cls_zero(&mut self)
        ensures
            final(self)@ == old(self)@.with_zero(false),
    {
        self.flags.zero = false;
    }

    pub fn set_interrupt_disable(&mut self)
        ensures
            final(self)@ == old(self)@.with_interrupt_disable(true),
    {
        self.flags.interrupt_disable = true;
    }

    pub fn cls_interrupt_disable(&mut self)
        ensures
            final(self)@ == old(self)@.with_interrupt_disable(false),
    {
        self.flags.interrupt_disable = false;
    }

    pub fn set_decimal(&mut self)
        ensures
            final(self)@ == old(self)@.with_decimal(true),
    {
        self.flags.decimal = true;
    }

    pub fn cls_decimal(&mut self)
        ensures
            final(self)@ == old(self)@.with_decimal(false),
    {
        self.flags.decimal = false;
    }

    pub fn is_overflow(&self) -> (r: bool)
        ensures
            r == self.flags.overflow,
    {
        self.flags.overflow
    }

    pub fn set_overflow(&mut self)
        ensures
            final(self)@ == old(self)@.with_overflow(true),
    {
        self.flags.overflow = true;
    }

    pub fn cls_overflow(&mut self)
        ensures
            final(self)@ == old(self)@.with_overflow(false),
    {
        self.flags.overflow = false;
    }

    pub fn is_negative(&self) -> (r: bool)
        ensures
            r == self.flags.negative,
    {
        self.flags.negative
    }

    pub fn set_negative(&mut self)
        ensures
            final(self)@ == old(self)@.with_negative(true),
    {
        self.flags.negative = true;
    }

    pub fn cls_negative(&mut self)
        ensures
            final(self)@ == old(self)@.with_negative(false),
    {
        self.flags.negative = false;
    }

    /// The carry flag as the 0-or-1 addend of ADC.
    pub fn carry_bit(&self) -> (r: u8)
        ensures
            r == if self.flags.carry { 1u8 } else { 0u8 },
    {
        if self.is_carry() {
            1
        } else {
            0
        }
    }

    /// Push one byte at the stack window slot the stack pointer names, then
    /// move the pointer down; fails at the low bound.
    pub fn stack_push(&mut self, value: u8) -> (r: Result<(), EmuError>)
        requires
            old(self)@.wf(),
        ensures
            final(self)@.wf(),
            old(self)@.sp > 0 ==> r == Ok::<(), EmuError>(()) && final(self)@ == old(self)@.pushed(
                value,
            ),
            old(self)@.sp == 0 ==> r == Err::<(), EmuError>(EmuError::StackOverflow) && final(self)@ == old(self)@,
    {
        if self.sp > 0 {
            let addr: usize = STACK + self.sp as usize;
            match self.write_memory(addr, value) {
                Ok(()) => {},
                Err(e) => return Err(e),
            }
            self.sp = self.sp - 1;
            Ok(())
        } else {
            Err(EmuError::StackOverflow)
        }
    }

    /// Pop one byte: move the pointer up, then read the slot it names; fails
    /// at the high bound.
    pub fn stack_pop(&mut self) -> (r: Result<u8, EmuError>)
        requires
            old(self)@.wf(),
        ensures
            final(self)@.wf(),
            old(self)@.sp < 0xff ==> r == Ok::<u8, EmuError>(old(self)@.pop_value()) && final(self)@ == old(self)@.popped(),
            old(self)@.sp == 0xff ==> r == Err::<u8, EmuError>(EmuError::StackUnderflow) && final(self)@ == old(self)@,
    {
        if self.sp < 0xff {
            self.sp = self.sp + 1;
            let addr: usize = STACK + self.sp as usize;
            let b = match self.read_memory(addr) {
                Ok(b) => b,
                Err(e) => return Err(e),
            };
            Ok(b)
        } else {
            Err(EmuError::StackUnderflow)
        }
    }

    /// Push a 16-bit value: high byte first, then low byte, so that a pop
    /// pair reads low then high.
    pub fn stack_push_u16(&mut self, value: u16) -> (r: Result<(), EmuError>)
        requires
            old(self)@.wf(),
        ensures
            final(self)@.wf(),
            old(self)@.sp >= 2 ==> r == Ok::<(), EmuError>(()) && final(self)@ == old(self)@.pushed16(value),
            old(self)@.sp == 1 ==> r == Err::<(), EmuError>(EmuError::StackOverflow) && final(self)@ == old(self)@.pushed((value / 256) as u8),
            old(self)@.sp == 0 ==> r == Err::<(), EmuError>(EmuError::StackOverflow) && final(self)@ == old(self)@,
    {
        let hi: u8 = (value / 256) as u8;
        let lo: u8 = (value % 256) as u8;
        match self.stack_push(hi) {
            Ok(()) => {},
            Err(e) => return Err(e),
        }
        match self.stack_push(lo) {
            Ok(()) => {},
            Err(e) => return Err(e),
        }
        Ok(())
    }

    /// Pop a 16-bit value: low byte first, then high.
    pub fn stack_pop_u16(&mut self) -> (r: Result<u16, EmuError>)
        requires
            old(self)@.wf(),
        ensures
            final(self)@.wf(),
            old(self)@.sp <= 0xfd ==> r == Ok::<u16, EmuError>(old(self)@.pop16_value()) && final(self)@ == old(self)@.popped().popped(),
            old(self)@.sp == 0xfe ==> r == Err::<u16, EmuError>(EmuError::StackUnderflow) && final(self)@ == old(self)@.popped(),
            old(self)@.sp == 0xff ==> r == Err::<u16, EmuError>(EmuError::StackUnderflow) && final(self)@ == old(self)@,
    {
        let lsb = match self.stack_pop() {
            Ok(b) => b,
            Err(e) => return Err(e),
        };
        let msb = match self.stack_pop() {
            Ok(b) => b,
            Err(e) => return Err(e),
        };
        Ok(lsb as u16 + (msb as u16) * 256)
    }

    /// Push the status byte, with the caller's flags (the BREAK bit for BRK
    /// and PHP) forced on in the pushed copy only.
    pub fn store_flag_with(&mut self, flags: Flags) -> (r: Result<(), EmuError>)
        requires
            old(self)@.wf(),
        ensures
            final(self)@.wf(),
            old(self)@.sp > 0 ==> r == Ok::<(), EmuError>(()) && final(self)@ == old(self)@.pushed(
                old(self)@.flags.spec_bits() | flags.spec_bits(),
            ),
            old(self)@.sp == 0 ==> r == Err::<(), EmuError>(EmuError::StackOverflow) && final(self)@ == old(self)@,
    {
        let b: u8 = self.flags.bits() | flags.bits();
        self.stack_push(b)
    }

    /// Pop the status byte and unpack it, truncating unknown bits.
    pub fn restore_flag(&mut self) -> (r: Result<(), EmuError>)
        requires
            old(self)@.wf(),
        ensures
            final(self)@.wf(),
            old(self)@.sp < 0xff ==> r == Ok::<(), EmuError>(()) && final(self)@ == old(self)@.popped().with_flags(Flags::spec_from_bits(old(self)@.pop_value())),
            old(self)@.sp == 0xff ==> r == Err::<(), EmuError>(EmuError::StackUnderflow) && final(self)@ == old(self)@,
    {
        let bits = match self.stack_pop() {
            Ok(b) => b,
            Err(e) => return Err(e),
        };
        self.flags = Flags::from_bits_truncate(bits);
        Ok(())
    }

    /// Push the current program counter (the address after the instruction
    /// just decoded).
    pub fn store_pc(&mut self) -> (r: Result<(), EmuError>)
        requires
            old(self)@.wf(),
        ensures
            final(self)@.wf(),
            old(self)@.sp >= 2 ==> r == Ok::<(), EmuError>(()) && final(self)@ == old(self)@.pushed16(old(self)@.pc as u16),
            old(self)@.sp == 1 ==> r == Err::<(), EmuError>(EmuError::StackOverflow) && final(self)@ == old(self)@.pushed((old(self)@.pc as u16 / 256) as u8),
            old(self)@.sp == 0 ==> r == Err::<(), EmuError>(EmuError::StackOverflow) && final(self)@ == old(self)@,
    {
        let pc16: u16 = self.pc as u16;
        self.stack_push_u16(pc16)
    }

    /// Pop a 16-bit address and transfer control there, bounds-checked.
    pub fn restore_pc(&mut self) -> (r: Result<(), EmuError>)
        requires
            old(self)@.wf(),
        ensures
            final(self)@.wf(),
            old(self)@.sp <= 0xfd && old(self)@.pop16_value() < MEMORY_SIZE ==> r == Ok::<
                (),
                EmuError,
            >(()) && final(self)@ == old(self)@.popped().popped().jumped(
                old(self)@.pop16_value() as int,
            ),
            old(self)@.sp <= 0xfd && old(self)@.pop16_value() >= MEMORY_SIZE ==> r == Err::<
                (),
                EmuError,
            >(EmuError::InvalidTarget) && final(self)@ == old(self)@.popped().popped(),
            old(self)@.sp == 0xfe ==> r == Err::<(), EmuError>(EmuError::StackUnderflow) && final(self)@ == old(self)@.popped(),
            old(self)@.sp == 0xff ==> r == Err::<(), EmuError>(EmuError::StackUnderflow) && final(self)@ == old(self)@,
    {
        let pc = match self.stack_pop_u16() {
            Ok(v) => v,
            Err(e) => return Err(e),
        };
        self.goto(pc as usize)
    }

    /// Copy a program image into memory at `addr`; fails exactly when the
    /// image would not fit within memory bounds. Loading writes memory
    /// directly, without display dirty tracking.
    pub fn load(&mut self, addr: usize, data: &[u8]) -> (r: Result<(), EmuError>)
        requires
            old(self)@.wf(),
        ensures
            final(self)@.wf(),
            addr + data@.len() <= MEMORY_SIZE ==> r == Ok::<(), EmuError>(()) && final(self)@
                == old(self)@.loaded(addr as int, data@),
            addr + data@.len() > MEMORY_SIZE ==> r == Err::<(), EmuError>(EmuError::OutOfBounds)
                && final(self)@ == old(self)@,
    {
        if addr > MEMORY_SIZE || data.len() > MEMORY_SIZE - addr {
            return Err(EmuError::OutOfBounds);
        }
        let ghost orig = self@.memory;
        let mut i: usize = 0;
        while i < data.len()
            invariant
                self@ == (MState { memory: self@.memory, ..old(self)@ }),
                self@.memory.len() == MEMORY_SIZE,
                0 <= i <= data@.len(),
                addr + data@.len() <= MEMORY_SIZE,
                orig.len() == MEMORY_SIZE,
                self@.memory =~= orig.take(addr as int) + data@.take(i as int) + orig.skip(
                    addr + i,
                ),
            decreases data@.len() - i,
        {
            self.memory[addr + i] = data[i];
            proof {
                let prev = orig.take(addr as int) + data@.take(i as int) + orig.skip(addr + i);
                let next = orig.take(addr as int) + data@.take(i + 1) + orig.skip(addr + i + 1);
                assert(self@.memory == prev.update(addr + i, data@[i as int]));
                assert forall|j: int| 0 <= j < MEMORY_SIZE implies self@.memory[j] == next[j] by {
                    if j < addr {
                        assert(next[j] == orig.take(addr as int)[j]);
                    } else if j < addr + i + 1 {
                        assert(next[j] == data@.take(i + 1)[j - addr]);
                    } else {
                        assert(next[j] == orig.skip(addr + i + 1)[j - addr - i - 1]);
                    }
                }
                assert(self@.memory =~= next);
            }
            i = i + 1;
        }
        proof {
            assert(data@.take(data@.len() as int) =~= data@);
            assert(self@.memory =~= orig.take(addr as int) + data@ + orig.skip(
                addr + data@.len(),
            ));
        }
        Ok(())
    }

    /// Load a program image and set the entry point to its start.
    pub fn load_jmp(&mut self, addr: usize, data: &[u8]) -> (r: Result<(), EmuError>)
        requires
            old(self)@.wf(),
        ensures
            final(self)@.wf(),
            addr + data@.len() <= MEMORY_SIZE ==> r == Ok::<(), EmuError>(()) && final(self)@
                == old(self)@.loaded(addr as int, data@).jumped(addr as int),
            addr + data@.len() > MEMORY_SIZE ==> r == Err::<(), EmuError>(EmuError::OutOfBounds)
                && final(self)@ == old(self)@,
    {
        match self.load(addr, data) {
            Ok(()) => {},
            Err(e) => return Err(e),
        }
        self.bpc = addr;
        self.pc = addr;
        Ok(())
    }

    /// Transfer control: set both counters to the target, failing on an
    /// out-of-bounds address.
    pub fn goto(&mut self, addr: usize) -> (r: Result<(), EmuError>)
        requires
            old(self)@.wf(),
        ensures
            final(self)@.wf(),
            addr < MEMORY_SIZE ==> r == Ok::<(), EmuError>(()) && final(self)@ == old(self)@.jumped(
                addr as int,
            ),
            addr >= MEMORY_SIZE ==> r == Err::<(), EmuError>(EmuError::InvalidTarget) && final(self)@ == old(self)@,
    {
        if addr < MEMORY_SIZE {
            self.pc = addr;
            self.bpc = addr;
            Ok(())
        } else {
            Err(EmuError::InvalidTarget)
        }
    }

    /// Commit the advanced program counter as the new instruction base.
    pub fn advance(&mut self)
        ensures
            final(self)@ == old(self)@.advanced(),
    {
        self.bpc = self.pc;
    }
}

} // verus!
