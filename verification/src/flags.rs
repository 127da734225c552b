use vstd::prelude::*;

verus! {

/// The seven processor status flags of the 6502, kept as named booleans.
/// The packed byte layout (bit 0 carry, bit 1 zero, bit 2 interrupt disable,
/// bit 3 decimal, bit 4 break, bit 6 overflow, bit 7 negative) only matters
/// when the flags are pushed on or pulled from the stack.
#[derive(Clone, Copy, Debug, PartialEq, Eq, Structural)]
pub struct Flags {
    pub carry: bool,
    pub zero: bool,
    pub interrupt_disable: bool,
    pub decimal: bool,
    pub brk: bool,
    pub overflow: bool,
    pub negative: bool,
}

impl Flags {
    /// All flags cleared.
    pub open spec fn spec_empty() -> Flags {
        Flags {
            carry: false,
            zero: false,
            interrupt_disable: false,
            decimal: false,
            brk: false,
            overflow: false,
            negative: false,
        }
    }

    pub fn empty() -> (f: Flags)
        ensures
            f == Flags::spec_empty(),
    {
        Flags {
            carry: false,
            zero: false,
            interrupt_disable: false,
            decimal: false,
            brk: false,
            overflow: false,
            negative: false,
        }
    }

    /// The packed status byte: each defined flag occupies its hardware bit;
    /// bit 5 is always clear.
    pub open spec fn spec_bits(self) -> u8 {
        (if self.carry { 0x01u8 } else { 0u8 })
            | (if self.zero { 0x02u8 } else { 0u8 })
            | (if self.interrupt_disable { 0x04u8 } else { 0u8 })
            | (if self.decimal { 0x08u8 } else { 0u8 })
            | (if self.brk { 0x10u8 } else { 0u8 })
            | (if self.overflow { 0x40u8 } else { 0u8 })
            | (if self.negative { 0x80u8 } else { 0u8 })
    }

    pub fn bits(&self) -> (b: u8)
        ensures
            b == self.spec_bits(),
    {
        (if self.carry { 0x01u8 } else { 0u8 })
            | (if self.zero { 0x02u8 } else { 0u8 })
            | (if self.interrupt_disable { 0x04u8 } else { 0u8 })
            | (if self.decimal { 0x08u8 } else { 0u8 })
            | (if self.brk { 0x10u8 } else { 0u8 })
            | (if self.overflow { 0x40u8 } else { 0u8 })
            | (if self.negative { 0x80u8 } else { 0u8 })
    }

    /// Unpack a status byte, dropping the undefined bit 5 (and bits outside
    /// the defined flags).
    pub open spec fn spec_from_bits(b: u8) -> Flags {
        Flags {
            carry: b & 0x01 != 0,
            zero: b & 0x02 != 0,
            interrupt_disable: b & 0x04 != 0,
            decimal: b & 0x08 != 0,
            brk: b & 0x10 != 0,
            overflow: b & 0x40 != 0,
            negative: b & 0x80 != 0,
        }
    }

    pub fn from_bits_truncate(b: u8) -> (f: Flags)
        ensures
            f == Flags::spec_from_bits(b),
    {
        Flags {
            carry: b & 0x01 != 0,
            zero: b & 0x02 != 0,
            interrupt_disable: b & 0x04 != 0,
            decimal: b & 0x08 != 0,
            brk: b & 0x10 != 0,
            overflow: b & 0x40 != 0,
            negative: b & 0x80 != 0,
        }
    }
}

/// Packing the flags into their status byte and unpacking that byte again
/// gives the same flags back: a stack round trip loses nothing.
pub proof fn lemma_flags_bits_round_trip(f: Flags)
    ensures
        Flags::spec_from_bits(f.spec_bits()) == f,
{
    let c: u8 = if f.carry { 0x01u8 } else { 0u8 };
    let z: u8 = if f.zero { 0x02u8 } else { 0u8 };
    let i: u8 = if f.interrupt_disable { 0x04u8 } else { 0u8 };
    let d: u8 = if f.decimal { 0x08u8 } else { 0u8 };
    let k: u8 = if f.brk { 0x10u8 } else { 0u8 };
    let o: u8 = if f.overflow { 0x40u8 } else { 0u8 };
    let n: u8 = if f.negative { 0x80u8 } else { 0u8 };
    assert((c == 0x01 || c == 0) && (z == 0x02 || z == 0) && (i == 0x04 || i == 0) && (d == 0x08
        || d == 0) && (k == 0x10 || k == 0) && (o == 0x40 || o == 0) && (n == 0x80 || n == 0)
        ==> {
        let b = c | z | i | d | k | o | n;
        &&& (b & 0x01 != 0) == (c == 0x01)
        &&& (b & 0x02 != 0) == (z == 0x02)
        &&& (b & 0x04 != 0) == (i == 0x04)
        &&& (b & 0x08 != 0) == (d == 0x08)
        &&& (b & 0x10 != 0) == (k == 0x10)
        &&& (b & 0x40 != 0) == (o == 0x40)
        &&& (b & 0x80 != 0) == (n == 0x80)
    }) by (bit_vector);
}

} // verus!
