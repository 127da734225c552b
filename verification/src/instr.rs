use vstd::prelude::*;

verus! {

/// Which index register, if any, an addressing mode adds to its base.
#[derive(Clone, Copy, Debug, PartialEq, Eq, Structural)]
pub enum Index {
    NoIndex,
    X,
    Y,
}

/// How an instruction derives its operand: an immediate byte, or one of the
/// address computations of the 6502.
#[derive(Clone, Copy, Debug, PartialEq, Eq, Structural)]
pub enum AddressingMode {
    Implied,
    Accumulator,
    Immediate(u8),
    ZeroPage(u8, Index),
    Relative(i8),
    Absolute(u16, Index),
    Indirect(u16),
    /// Indexed indirect: the operand byte plus X (wrapping within the zero
    /// page) names a pointer that is dereferenced.
    IndexedIndirect(u8),
    /// Indirect indexed: the operand byte names a zero-page pointer that is
    /// dereferenced, then Y is added to the result.
    IndirectIndexed(u8),
}

impl AddressingMode {
    /// Modes the resolver accepts: everything except the two that the
    /// execution engine handles directly.
    pub open spec fn reads_value(self) -> bool {
        !(self is Implied) && !(self is Accumulator)
    }

    /// Modes that resolve to a memory address rather than an immediate value.
    pub open spec fn yields_address(self) -> bool {
        self.reads_value() && !(self is Immediate)
    }
}

/// One decoded instruction: a mnemonic, most carrying the addressing mode the
/// opcode byte selected. `Halt` is a synthetic sentinel (opcode 0xFF, absent
/// on real hardware) that stops emulation deterministically.
#[derive(Clone, Copy, Debug, PartialEq, Eq, Structural)]
pub enum Operation {
    /// Add with carry
    Adc(AddressingMode),
    /// Bitwise and
    And(AddressingMode),
    /// Arithmetic shift left
    Asl(AddressingMode),
    /// Branch if carry clear
    Bcc(AddressingMode),
    /// Branch if carry set
    Bcs(AddressingMode),
    /// Branch if equal
    Beq(AddressingMode),
    /// Bit test
    Bit(AddressingMode),
    /// Branch if minus
    Bmi(AddressingMode),
    /// Branch if not equal
    Bne(AddressingMode),
    /// Branch if plus
    Bpl(AddressingMode),
    /// Break (software interrupt)
    Brk,
    /// Branch if overflow clear
    Bvc(AddressingMode),
    /// Branch if overflow set
    Bvs(AddressingMode),
    /// Clear carry
    Clc,
    /// Clear decimal
    Cld,
    /// Clear interrupt disable
    Cli,
    /// Clear overflow
    Clv,
    /// Compare accumulator
    Cmp(AddressingMode),
    /// Compare X
    Cpx(AddressingMode),
    /// Compare Y
    Cpy(AddressingMode),
    /// Decrement memory
    Dec(AddressingMode),
    /// Decrement X
    Dex,
    /// Decrement Y
    Dey,
    /// Bitwise exclusive or
    Eor(AddressingMode),
    /// Increment memory
    Inc(AddressingMode),
    /// Increment X
    Inx,
    /// Increment Y
    Iny,
    /// Jump
    Jmp(AddressingMode),
    /// Jump to subroutine
    Jsr(AddressingMode),
    /// Load accumulator
    Lda(AddressingMode),
    /// Load X
    Ldx(AddressingMode),
    /// Load Y
    Ldy(AddressingMode),
    /// Logical shift right
    Lsr(AddressingMode),
    /// No operation
    Nop,
    /// Bitwise or
    Ora(AddressingMode),
    /// Push accumulator
    Pha,
    /// Push processor status
    Php,
    /// Pull accumulator
    Pla,
    /// Pull processor status
    Plp,
    /// Rotate left
    Rol(AddressingMode),
    /// Rotate right
    Ror(AddressingMode),
    /// Return from interrupt
    Rti,
    /// Return from subroutine
    Rts,
    /// Subtract with carry
    Sbc(AddressingMode),
    /// Set carry
    Sec,
    /// Set decimal
    Sed,
    /// Set interrupt disable
    Sei,
    /// Store accumulator
    Sta(AddressingMode),
    /// Store X
    Stx(AddressingMode),
    /// Store Y
    Sty(AddressingMode),
    /// Transfer accumulator to X
    Tax,
    /// Transfer accumulator to Y
    Tay,
    /// Transfer stack pointer to X
    Tsx,
    /// Transfer X to accumulator
    Txa,
    /// Transfer X to stack pointer
    Txs,
    /// Transfer Y to accumulator
    Tya,
    Halt,
}

impl Operation {
    /// Every instruction the decoder can produce pairs its mnemonic with a
    /// mode the execution engine accepts: value-reading instructions never
    /// carry Implied or Accumulator, address-consuming ones never carry an
    /// immediate, and shifts carry Accumulator or an address-yielding mode.
    pub open spec fn wf(self) -> bool {
        match self {
            Operation::Adc(m) => m.reads_value(),
            Operation::And(m) => m.reads_value(),
            Operation::Bit(m) => m.reads_value(),
            Operation::Cmp(m) => m.reads_value(),
            Operation::Cpx(m) => m.reads_value(),
            Operation::Cpy(m) => m.reads_value(),
            Operation::Eor(m) => m.reads_value(),
            Operation::Lda(m) => m.reads_value(),
            Operation::Ldx(m) => m.reads_value(),
            Operation::Ldy(m) => m.reads_value(),
            Operation::Ora(m) => m.reads_value(),
            Operation::Sbc(m) => m.reads_value(),
            Operation::Asl(m) => m is Accumulator || m.yields_address(),
            Operation::Lsr(m) => m is Accumulator || m.yields_address(),
            Operation::Rol(m) => m is Accumulator || m.yields_address(),
            Operation::Ror(m) => m is Accumulator || m.yields_address(),
            Operation::Sta(m) => m.yields_address(),
            Operation::Stx(m) => m.yields_address(),
            Operation::Sty(m) => m.yields_address(),
            Operation::Dec(m) => m.yields_address(),
            Operation::Inc(m) => m.yields_address(),
            Operation::Jmp(m) => m.yields_address(),
            Operation::Jsr(m) => m.yields_address(),
            Operation::Bpl(m) => m.yields_address(),
            Operation::Bmi(m) => m.yields_address(),
            Operation::Bvc(m) => m.yields_address(),
            Operation::Bvs(m) => m.yields_address(),
            Operation::Bcc(m) => m.yields_address(),
            Operation::Bcs(m) => m.yields_address(),
            Operation::Bne(m) => m.yields_address(),
            Operation::Beq(m) => m.yields_address(),
            _ => true,
        }
    }
}

} // verus!
