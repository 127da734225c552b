use vstd::prelude::*;

use crate::exec::{branch_post, step_post};
use crate::instr::{AddressingMode, Operation};
use crate::machine::{
    EmuError, MState, Status, DISPLAY_END, DISPLAY_START, MEMORY_SIZE, RAND_ADDR, STACK,
};
use crate::decode::spec_decode;

verus! {

/// Write/read consistency: after a byte is stored, a read of the same
/// address yields exactly that byte, for every address except the reserved
/// random source.
pub proof fn lemma_write_then_read(s: MState, addr: int, v: u8, b: u8)
    requires
        s.wf(),
        0 <= addr < MEMORY_SIZE,
        addr != RAND_ADDR,
    ensures
        s.written(addr, v).read_ok(addr, b) <==> b == v,
        forall|other: int|
            0 <= other < MEMORY_SIZE && other != addr ==> s.written(addr, v).memory[other]
                == s.memory[other],
{
}

/// Loading a value into a register leaves ZERO exactly when the value is 0
/// and NEGATIVE exactly when its high bit is set; the three register loads
/// share one rule.
pub proof fn lemma_load_flags(s: MState, v: u8)
    ensures
        s.with_acc(v).acc == v,
        s.with_acc(v).flags.zero == (v == 0),
        s.with_acc(v).flags.negative == (v >= 0x80),
        (v >= 0x80) == (v & 0x80 != 0),
        s.with_x(v).flags == s.with_acc(v).flags,
        s.with_y(v).flags == s.with_acc(v).flags,
{
    assert((v >= 0x80) == (v & 0x80 != 0)) by (bit_vector);
}

/// Stack round trip: pushing a 16-bit value and popping a pair gives the
/// same value back and returns the stack pointer to where it was.
pub proof fn lemma_stack_round_trip(s: MState, v: u16)
    requires
        s.wf(),
        s.sp >= 2,
    ensures
        s.pushed16(v).pop16_value() == v,
        s.pushed16(v).popped().popped().sp == s.sp,
{
    let hi = (v / 256) as u8;
    let lo = (v % 256) as u8;
    let s2 = s.pushed(hi).pushed(lo);
    assert(s2.memory[STACK + s.sp] == hi);
    assert(s2.memory[STACK + s.sp - 1] == lo);
    assert(s2.sp == s.sp - 2);
    assert(s2.pop_value() == lo);
    assert(s2.popped().pop_value() == hi);
    assert(lo + 256 * hi == v);
}

/// A comparison leaves ZERO exactly when the register equals the operand
/// (and carry exactly when the register is at least the operand).
pub proof fn lemma_compare_sets_zero(s: MState, reg: u8, v: u8)
    ensures
        s.apply_compare(reg, v).flags.zero == (reg == v),
        s.apply_compare(reg, v).flags.carry == (reg >= v),
{
}

/// A branch whose condition fails falls through: the instruction base moves
/// to the already-advanced program counter and nothing else changes.
pub proof fn lemma_branch_not_taken(
    pre: MState,
    post: MState,
    mode: AddressingMode,
    r: Result<Status, EmuError>,
)
    requires
        branch_post(pre, post, mode, r, false),
    ensures
        r == Ok::<Status, EmuError>(Status::Cont),
        post == pre.advanced(),
{
}

/// A taken branch with a relative offset lands exactly at the instruction
/// start plus the signed offset, whenever that target lies in memory.
pub proof fn lemma_branch_taken_relative(
    pre: MState,
    post: MState,
    off: i8,
    r: Result<Status, EmuError>,
)
    requires
        branch_post(pre, post, AddressingMode::Relative(off), r, true),
        0 <= pre.bpc + off < MEMORY_SIZE,
    ensures
        r == Ok::<Status, EmuError>(Status::Cont),
        post == pre.jumped(pre.bpc + off),
{
    assert(pre.addr_ok(AddressingMode::Relative(off), pre.bpc + off));
}

/// A write into the display region raises the dirty signal exactly when it
/// changes the stored byte; rewriting the byte already present, or writing
/// outside the region, leaves the signal alone.
pub proof fn lemma_display_dirty(s: MState, addr: int, v: u8)
    requires
        0 <= addr < MEMORY_SIZE,
    ensures
        DISPLAY_START <= addr < DISPLAY_END && s.memory[addr] != v ==> s.written(
            addr,
            v,
        ).display_dirty,
        s.memory[addr] == v ==> s.written(addr, v).display_dirty == s.display_dirty,
        !(DISPLAY_START <= addr < DISPLAY_END) ==> s.written(addr, v).display_dirty
            == s.display_dirty,
{
}

/// The reserved byte 0xFF decodes to the synthetic Halt instruction at any
/// position in the stream, regardless of what precedes or follows it.
pub proof fn lemma_decode_halt(s: Seq<u8>)
    requires
        s.len() >= 1,
        s[0] == 0xFF,
    ensures
        spec_decode(s) == Ok::<Option<Operation>, EmuError>(Some(Operation::Halt)),
{
}

/// No instruction touches the cooperative running flag: execution is
/// stopped only by the synthetic Halt, a clean end of stream, an error, or
/// the loop's owner withdrawing the flag.
#[verifier::rlimit(100)]
pub proof fn lemma_step_keeps_running(
    pre: MState,
    post: MState,
    op: Operation,
    r: Result<Status, EmuError>,
)
    requires
        step_post(pre, post, op, r),
    ensures
        post.running == pre.running,
{
}

} // verus!
