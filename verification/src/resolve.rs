use vstd::prelude::*;

use crate::instr::{AddressingMode, Index};
use crate::machine::{EmuError, MState, Machine, Operand, MEMORY_SIZE};

verus! {

impl MState {
    /// The value an index designator adds to a base address.
    pub open spec fn index_val(self, idx: Index) -> int {
        match idx {
            Index::NoIndex => 0,
            Index::X => self.x as int,
            Index::Y => self.y as int,
        }
    }

    /// The addresses an address-yielding mode may resolve to in this state.
    /// The three indirect modes read their pointer through the bus, so a
    /// pointer that touches the reserved random address makes the result a
    /// relation rather than a function.
    pub open spec fn addr_ok(self, mode: AddressingMode, ad: int) -> bool {
        match mode {
            AddressingMode::Implied => false,
            AddressingMode::Accumulator => false,
            AddressingMode::Immediate(_) => false,
            AddressingMode::ZeroPage(a, idx) => ad == a + self.index_val(idx),
            AddressingMode::Relative(ra) => self.bpc + ra >= 0 && ad == self.bpc + ra,
            AddressingMode::Absolute(a, idx) => ad == a + self.index_val(idx),
            AddressingMode::Indirect(a) => a + 1 < MEMORY_SIZE && (exists|p: u16|
                #[trigger] self.read16_ok(a as int, p) && ad == p),
            AddressingMode::IndexedIndirect(a) => exists|p: u16|
                #[trigger] self.read16_ok((a + self.x) % 256, p) && ad == p,
            AddressingMode::IndirectIndexed(a) => exists|p: u16|
                #[trigger] self.read16_ok(a as int, p) && ad == p + self.y,
        }
    }

    /// The one deterministic way each mode can fail to resolve: a relative
    /// target below zero, or an indirect pointer beyond memory.
    pub open spec fn resolve_fails(self, mode: AddressingMode) -> Option<EmuError> {
        match mode {
            AddressingMode::Relative(ra) => if self.bpc + ra < 0 {
                Some(EmuError::AddressCalculation)
            } else {
                Option::<EmuError>::None
            },
            AddressingMode::Indirect(a) => if a + 1 >= MEMORY_SIZE {
                Some(EmuError::OutOfBounds)
            } else {
                Option::<EmuError>::None
            },
            _ => Option::<EmuError>::None,
        }
    }

    /// What a resolved operand may be: the immediate byte itself, or one of
    /// the addresses the mode may yield.
    pub open spec fn operand_ok(self, mode: AddressingMode, o: Operand) -> bool {
        match o {
            Operand::Value(v) => mode matches AddressingMode::Immediate(n) && n == v,
            Operand::Address(ad) => self.addr_ok(mode, ad as int),
        }
    }

    /// What reading an operand through the bus may return.
    pub open spec fn value_ok(self, mode: AddressingMode, v: u8) -> bool {
        ||| (mode matches AddressingMode::Immediate(n) && n == v)
        ||| (exists|ad: int|
            #[trigger] self.addr_ok(mode, ad) && 0 <= ad < MEMORY_SIZE && self.read_ok(ad, v))
    }

    /// How reading an operand may fail: the mode itself fails to resolve, or
    /// it resolves to an address beyond memory.
    pub open spec fn value_fails(self, mode: AddressingMode, e: EmuError) -> bool {
        ||| self.resolve_fails(mode) == Some(e)
        ||| (e == EmuError::OutOfBounds && exists|ad: int|
            #[trigger] self.addr_ok(mode, ad) && ad >= MEMORY_SIZE)
    }
}

impl Machine {
    /// Resolve an addressing mode against the current register state into an
    /// immediate value or a memory address. Indexed zero-page and absolute
    /// forms add the full index without wrapping; indexed-indirect wraps its
    /// pointer within the zero page; relative targets are based at the start
    /// of the current instruction.
    pub fn get_operand(&self, mode: AddressingMode) -> (r: Result<Operand, EmuError>)
        requires
            self@.wf(),
            mode.reads_value(),
        ensures
            r matches Ok(o) ==> self@.operand_ok(mode, o) && self@.resolve_fails(mode) is None,
            r matches Err(e) ==> self@.resolve_fails(mode) == Some(e),
    {
        match mode {
            AddressingMode::Immediate(n) => Ok(Operand::Value(n)),
            AddressingMode::ZeroPage(a, idx) => {
                let base: usize = a as usize;
                let ad: usize = match idx {
                    Index::NoIndex => base,
                    Index::X => base + self.x as usize,
                    Index::Y => base + self.y as usize,
                };
                Ok(Operand::Address(ad))
            },
            AddressingMode::Relative(ra) => {
                let target: i64 = self.bpc as i64 + ra as i64;
                if target < 0 {
                    Err(EmuError::AddressCalculation)
                } else {
                    Ok(Operand::Address(target as usize))
                }
            },
            AddressingMode::Absolute(a, idx) => {
                let base: usize = a as usize;
                let ad: usize = match idx {
                    Index::NoIndex => base,
                    Index::X => base + self.x as usize,
                    Index::Y => base + self.y as usize,
                };
                Ok(Operand::Address(ad))
            },
            AddressingMode::Indirect(a) => {
                let p = match self.read_memory_u16(a as usize) {
                    Ok(p) => p,
                    Err(e) => return Err(e),
                };
                Ok(Operand::Address(p as usize))
            },
            AddressingMode::IndexedIndirect(a) => {
                let ptr: usize = (a as usize + self.x as usize) % 256;
                let p = match self.read_memory_u16(ptr) {
                    Ok(p) => p,
                    Err(e) => return Err(e),
                };
                proof {
                    assert(ptr as int == (a + self@.x) % 256);
                    assert(self@.read16_ok((a + self@.x) % 256, p));
                }
                Ok(Operand::Address(p as usize))
            },
            AddressingMode::IndirectIndexed(a) => {
                let p = match self.read_memory_u16(a as usize) {
                    Ok(p) => p,
                    Err(e) => return Err(e),
                };
                Ok(Operand::Address(p as usize + self.y as usize))
            },
            _ => unreached(),
        }
    }

    /// Resolve a mode and read the operand byte it designates: an immediate
    /// byte directly, anything else through the memory bus.
    pub fn get_operand_value(&self, mode: AddressingMode) -> (r: Result<u8, EmuError>)
        requires
            self@.wf(),
            mode.reads_value(),
        ensures
            r matches Ok(v) ==> self@.value_ok(mode, v),
            r matches Err(e) ==> self@.value_fails(mode, e),
    {
        let operand = match self.get_operand(mode) {
            Ok(o) => o,
            Err(e) => return Err(e),
        };
        match operand {
            Operand::Address(ad) => {
                if ad < MEMORY_SIZE {
                    match self.read_memory(ad) {
                        Ok(v) => Ok(v),
                        Err(e) => {
                            proof {
                                assert(false);
                            }
                            Err(e)
                        },
                    }
                } else {
                    Err(EmuError::OutOfBounds)
                }
            },
            Operand::Value(v) => Ok(v),
        }
    }
}

} // verus!
