//! An emulator for the MOS 6502 microprocessor over a deliberately bounded
//! memory space: a memory bus with a reserved random-source address and a
//! dirty-tracked display region, the register and flag state with its
//! 256-byte stack window, an addressing-mode resolver, an instruction
//! decoder driven by a fixed dispatch table, the execution engine, and a
//! bounded run loop. Rendering, input, pacing and the command line live in
//! the binary around this library.

pub mod flags;
pub mod instr;
pub mod machine;
pub mod resolve;
pub mod exec;
pub mod decode;
pub mod run;
pub mod display;
pub mod report;
pub mod laws;

use vstd::prelude::*;

verus! {

/// The sign bit of a byte, shifted down to 0 or 1.
pub fn sign_bit(b: u8) -> (r: u8)
    ensures
        r == if b >= 0x80 { 1u8 } else { 0u8 },
{
    proof {
        assert((b & 0x80) >> 7 == (if b >= 0x80 { 1u8 } else { 0u8 })) by (bit_vector);
    }
    (b & 0x80) >> 7
}

/// A byte is negative as a two's-complement value iff its high bit is set.
pub fn is_negative(b: u8) -> (r: bool)
    ensures
        r == (b >= 0x80),
{
    sign_bit(b) == 1
}

} // verus!
