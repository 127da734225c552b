use vstd::prelude::*;

use crate::instr::{AddressingMode, Index, Operation};
use crate::machine::EmuError;

verus! {

/// A forward-only byte cursor: the decoder's view of memory. `stream` is the
/// whole underlying byte sequence, which reading never changes; `pos` is the
/// read position within it.
pub trait Cursor {
    spec fn stream(&self) -> Seq<u8>;

    spec fn pos(&self) -> int;

    /// Pull the next byte, or nothing at a clean end of the stream.
    fn next_byte(&mut self) -> (r: Option<u8>)
        requires
            0 <= old(self).pos() <= old(self).stream().len(),
        ensures
            final(self).stream() == old(self).stream(),
            old(self).pos() == old(self).stream().len() ==> r is None && final(self).pos() == old(
                self,
            ).pos(),
            old(self).pos() < old(self).stream().len() ==> r == Some(
                old(self).stream()[old(self).pos()],
            ) && final(self).pos() == old(self).pos() + 1,
    ;

    /// Pull two bytes for a little-endian pair; both reads happen even when
    /// the second fails.
    fn next_2(&mut self) -> (r: Option<(u8, u8)>)
        requires
            0 <= old(self).pos() <= old(self).stream().len(),
        ensures
            final(self).stream() == old(self).stream(),
            old(self).pos() + 2 <= old(self).stream().len() ==> r == Some(
                (old(self).stream()[old(self).pos()], old(self).stream()[old(self).pos() + 1]),
            ) && final(self).pos() == old(self).pos() + 2,
            old(self).pos() + 2 > old(self).stream().len() ==> r is None && final(self).pos()
                == old(self).stream().len(),
    {
        let first = self.next_byte();
        let second = self.next_byte();
        match (first, second) {
            (Some(lsb), Some(msb)) => Some((lsb, msb)),
            _ => None,
        }
    }

    /// One required operand byte; failing is a truncated instruction.
    fn need_u8(&mut self) -> (r: Result<u8, EmuError>)
        requires
            0 <= old(self).pos() <= old(self).stream().len(),
        ensures
            final(self).stream() == old(self).stream(),
            old(self).pos() < old(self).stream().len() ==> r == Ok::<u8, EmuError>(
                old(self).stream()[old(self).pos()],
            ) && final(self).pos() == old(self).pos() + 1,
            old(self).pos() == old(self).stream().len() ==> r == Err::<u8, EmuError>(
                EmuError::TruncatedOperand,
            ) && final(self).pos() == old(self).pos(),
    {
        match self.next_byte() {
            Some(b) => Ok(b),
            None => Err(EmuError::TruncatedOperand),
        }
    }

    /// One required operand byte read as a signed offset.
    fn need_i8(&mut self) -> (r: Result<i8, EmuError>)
        requires
            0 <= old(self).pos() <= old(self).stream().len(),
        ensures
            final(self).stream() == old(self).stream(),
            old(self).pos() < old(self).stream().len() ==> r == Ok::<i8, EmuError>(
                old(self).stream()[old(self).pos()] as i8,
            ) && final(self).pos() == old(self).pos() + 1,
            old(self).pos() == old(self).stream().len() ==> r == Err::<i8, EmuError>(
                EmuError::TruncatedOperand,
            ) && final(self).pos() == old(self).pos(),
    {
        match self.next_byte() {
            Some(b) => Ok(#[verifier::truncate] (b as i8)),
            None => Err(EmuError::TruncatedOperand),
        }
    }

    /// Two required operand bytes as a little-endian 16-bit value.
    fn need_u16(&mut self) -> (r: Result<u16, EmuError>)
        requires
            0 <= old(self).pos() <= old(self).stream().len(),
        ensures
            final(self).stream() == old(self).stream(),
            old(self).pos() + 2 <= old(self).stream().len() ==> r == Ok::<u16, EmuError>(
                (old(self).stream()[old(self).pos()] + 256 * old(self).stream()[old(self).pos()
                    + 1]) as u16,
            ) && final(self).pos() == old(self).pos() + 2,
            old(self).pos() + 2 > old(self).stream().len() ==> r == Err::<u16, EmuError>(
                EmuError::TruncatedOperand,
            ) && final(self).pos() == old(self).stream().len(),
    {
        match self.next_2() {
            Some((lsb, msb)) => Ok(lsb as u16 + (msb as u16) * 256),
            None => Err(EmuError::TruncatedOperand),
        }
    }
}

/// A cursor over borrowed memory, used to decode at the program counter.
pub struct SliceCursor<'a> {
    pub bytes: &'a Vec<u8>,
    pub pos: usize,
}

impl<'a> Cursor for SliceCursor<'a> {
    open spec fn stream(&self) -> Seq<u8> {
        self.bytes@
    }

    open spec fn pos(&self) -> int {
        self.pos as int
    }

    fn next_byte(&mut self) -> (r: Option<u8>) {
        if self.pos < self.bytes.len() {
            let b = self.bytes[self.pos];
            self.pos = self.pos + 1;
            Some(b)
        } else {
            None
        }
    }
}

/// Decode a one-byte operand.
pub open spec fn dec_u8(s: Seq<u8>, f: spec_fn(u8) -> Operation) -> Result<
    Option<Operation>,
    EmuError,
> {
    if s.len() >= 2 {
        Ok(Some(f(s[1])))
    } else {
        Err(EmuError::TruncatedOperand)
    }
}

/// Decode a one-byte signed operand.
pub open spec fn dec_i8(s: Seq<u8>, f: spec_fn(i8) -> Operation) -> Result<
    Option<Operation>,
    EmuError,
> {
    if s.len() >= 2 {
        Ok(Some(f(s[1] as i8)))
    } else {
        Err(EmuError::TruncatedOperand)
    }
}

/// Decode a two-byte little-endian operand.
pub open spec fn dec_u16(s: Seq<u8>, f: spec_fn(u16) -> Operation) -> Result<
    Option<Operation>,
    EmuError,
> {
    if s.len() >= 3 {
        Ok(Some(f((s[1] + 256 * s[2]) as u16)))
    } else {
        Err(EmuError::TruncatedOperand)
    }
}

pub open spec fn operand_bytes_x0(b: u8) -> int {
    match b {
        0x08 | 0x0A => 0,
        0x00 | 0x01 | 0x05 | 0x06 | 0x09 => 1,
        0x0D | 0x0E => 2,
        _ => 0,
    }
}

pub open spec fn operand_bytes_x1(b: u8) -> int {
    match b {
        0x18 => 0,
        0x10 | 0x11 | 0x15 | 0x16 => 1,
        0x19 | 0x1D | 0x1E => 2,
        _ => 0,
    }
}

pub open spec fn operand_bytes_x2(b: u8) -> int {
    match b {
        0x28 | 0x2A => 0,
        0x21 | 0x24 | 0x25 | 0x26 | 0x29 => 1,
        0x20 | 0x2C | 0x2D | 0x2E => 2,
        _ => 0,
    }
}

pub open spec fn operand_bytes_x3(b: u8) -> int {
    match b {
        0x38 => 0,
        0x30 | 0x31 | 0x35 | 0x36 => 1,
        0x39 | 0x3D | 0x3E => 2,
        _ => 0,
    }
}

pub open spec fn operand_bytes_x4(b: u8) -> int {
    match b {
        0x40 | 0x48 | 0x4A => 0,
        0x41 | 0x45 | 0x46 | 0x49 => 1,
        0x4C | 0x4D | 0x4E => 2,
        _ => 0,
    }
}

pub open spec fn operand_bytes_x5(b: u8) -> int {
    match b {
        0x58 => 0,
        0x50 | 0x51 | 0x55 | 0x56 => 1,
        0x59 | 0x5D | 0x5E => 2,
        _ => 0,
    }
}

pub open spec fn operand_bytes_x6(b: u8) -> int {
    match b {
        0x60 | 0x68 | 0x6A => 0,
        0x61 | 0x65 | 0x66 | 0x69 => 1,
        0x6C | 0x6D | 0x6E => 2,
        _ => 0,
    }
}

pub open spec fn operand_bytes_x7(b: u8) -> int {
    match b {
        0x78 => 0,
        0x70 | 0x71 | 0x75 | 0x76 => 1,
        0x79 | 0x7D | 0x7E => 2,
        _ => 0,
    }
}

pub open spec fn operand_bytes_x8(b: u8) -> int {
    match b {
        0x88 | 0x8A => 0,
        0x81 | 0x84 | 0x85 | 0x86 => 1,
        0x8C | 0x8D | 0x8E => 2,
        _ => 0,
    }
}

pub open spec fn operand_bytes_x9(b: u8) -> int {
    match b {
        0x98 | 0x9A => 0,
        0x90 | 0x91 | 0x94 | 0x95 | 0x96 => 1,
        0x99 | 0x9D => 2,
        _ => 0,
    }
}

pub open spec fn operand_bytes_xa(b: u8) -> int {
    match b {
        0xA8 | 0xAA => 0,
        0xA0 | 0xA1 | 0xA2 | 0xA4 | 0xA5 | 0xA6 | 0xA9 => 1,
        0xAC | 0xAD | 0xAE => 2,
        _ => 0,
    }
}

pub open spec fn operand_bytes_xb(b: u8) -> int {
    match b {
        0xB8 | 0xBA => 0,
        0xB0 | 0xB1 | 0xB4 | 0xB5 | 0xB6 => 1,
        0xB9 | 0xBC | 0xBD | 0xBE => 2,
        _ => 0,
    }
}

pub open spec fn operand_bytes_xc(b: u8) -> int {
    match b {
        0xC8 | 0xCA => 0,
        0xC0 | 0xC1 | 0xC4 | 0xC5 | 0xC6 | 0xC9 => 1,
        0xCC | 0xCD | 0xCE => 2,
        _ => 0,
    }
}

pub open spec fn operand_bytes_xd(b: u8) -> int {
    match b {
        0xD8 => 0,
        0xD0 | 0xD1 | 0xD5 | 0xD6 => 1,
        0xD9 | 0xDD | 0xDE => 2,
        _ => 0,
    }
}

pub open spec fn operand_bytes_xe(b: u8) -> int {
    match b {
        0xE8 | 0xEA => 0,
        0xE0 | 0xE1 | 0xE4 | 0xE5 | 0xE6 | 0xE9 => 1,
        0xEC | 0xED | 0xEE => 2,
        _ => 0,
    }
}

pub open spec fn operand_bytes_xf(b: u8) -> int {
    match b {
        0xF8 | 0xFF => 0,
        0xF0 | 0xF1 | 0xF5 | 0xF6 => 1,
        0xF9 | 0xFD | 0xFE => 2,
        _ => 0,
    }
}

/// The dispatch-table rows whose opcode byte lies in [0x00, 0x0F].
pub open spec fn spec_decode_x0(s: Seq<u8>) -> Result<Option<Operation>, EmuError>
    recommends
        s.len() >= 1,
{
    match s[0] {
        0x00 => if s.len() >= 2 {
            Ok(Some(Operation::Brk))
        } else {
            Err(EmuError::TruncatedOperand)
        },
        0x01 => dec_u8(s, (|n: u8| Operation::Ora(AddressingMode::IndexedIndirect(n)))),
        0x05 => dec_u8(s, (|n: u8| Operation::Ora(AddressingMode::ZeroPage(n, Index::NoIndex)))),
        0x06 => dec_u8(s, (|n: u8| Operation::Asl(AddressingMode::ZeroPage(n, Index::NoIndex)))),
        0x08 => Ok(Some(Operation::Php)),
        0x09 => dec_u8(s, (|n: u8| Operation::Ora(AddressingMode::Immediate(n)))),
        0x0A => Ok(Some(Operation::Asl(AddressingMode::Accumulator))),
        0x0D => dec_u16(s, (|n: u16| Operation::Ora(AddressingMode::Absolute(n, Index::NoIndex)))),
        0x0E => dec_u16(s, (|n: u16| Operation::Asl(AddressingMode::Absolute(n, Index::NoIndex)))),
        _ => Err(EmuError::UnknownOpcode),
    }
}

/// The dispatch-table rows whose opcode byte lies in [0x10, 0x1F].
pub open spec fn spec_decode_x1(s: Seq<u8>) -> Result<Option<Operation>, EmuError>
    recommends
        s.len() >= 1,
{
    match s[0] {
        0x10 => dec_i8(s, (|n: i8| Operation::Bpl(AddressingMode::Relative(n)))),
        0x11 => dec_u8(s, (|n: u8| Operation::Ora(AddressingMode::IndirectIndexed(n)))),
        0x15 => dec_u8(s, (|n: u8| Operation::Ora(AddressingMode::ZeroPage(n, Index::X)))),
        0x16 => dec_u8(s, (|n: u8| Operation::Asl(AddressingMode::ZeroPage(n, Index::X)))),
        0x18 => Ok(Some(Operation::Clc)),
        0x19 => dec_u16(s, (|n: u16| Operation::Ora(AddressingMode::Absolute(n, Index::Y)))),
        0x1D => dec_u16(s, (|n: u16| Operation::Ora(AddressingMode::Absolute(n, Index::X)))),
        0x1E => dec_u16(s, (|n: u16| Operation::Asl(AddressingMode::Absolute(n, Index::X)))),
        _ => Err(EmuError::UnknownOpcode),
    }
}

/// The dispatch-table rows whose opcode byte lies in [0x20, 0x2F].
pub open spec fn spec_decode_x2(s: Seq<u8>) -> Result<Option<Operation>, EmuError>
    recommends
        s.len() >= 1,
{
    match s[0] {
        0x20 => dec_u16(s, (|n: u16| Operation::Jsr(AddressingMode::Absolute(n, Index::NoIndex)))),
        0x21 => dec_u8(s, (|n: u8| Operation::And(AddressingMode::IndexedIndirect(n)))),
        0x24 => dec_u8(s, (|n: u8| Operation::Bit(AddressingMode::ZeroPage(n, Index::NoIndex)))),
        0x25 => dec_u8(s, (|n: u8| Operation::And(AddressingMode::ZeroPage(n, Index::NoIndex)))),
        0x26 => dec_u8(s, (|n: u8| Operation::Rol(AddressingMode::ZeroPage(n, Index::NoIndex)))),
        0x28 => Ok(Some(Operation::Plp)),
        0x29 => dec_u8(s, (|n: u8| Operation::And(AddressingMode::Immediate(n)))),
        0x2A => Ok(Some(Operation::Rol(AddressingMode::Accumulator))),
        0x2C => dec_u16(s, (|n: u16| Operation::Bit(AddressingMode::Absolute(n, Index::NoIndex)))),
        0x2D => dec_u16(s, (|n: u16| Operation::And(AddressingMode::Absolute(n, Index::NoIndex)))),
        0x2E => dec_u16(s, (|n: u16| Operation::Rol(AddressingMode::Absolute(n, Index::NoIndex)))),
        _ => Err(EmuError::UnknownOpcode),
    }
}

/// The dispatch-table rows whose opcode byte lies in [0x30, 0x3F].
pub open spec fn spec_decode_x3(s: Seq<u8>) -> Result<Option<Operation>, EmuError>
    recommends
        s.len() >= 1,
{
    match s[0] {
        0x30 => dec_i8(s, (|n: i8| Operation::Bmi(AddressingMode::Relative(n)))),
        0x31 => dec_u8(s, (|n: u8| Operation::And(AddressingMode::IndirectIndexed(n)))),
        0x35 => dec_u8(s, (|n: u8| Operation::And(AddressingMode::ZeroPage(n, Index::X)))),
        0x36 => dec_u8(s, (|n: u8| Operation::Rol(AddressingMode::ZeroPage(n, Index::X)))),
        0x38 => Ok(Some(Operation::Sec)),
        0x39 => dec_u16(s, (|n: u16| Operation::And(AddressingMode::Absolute(n, Index::Y)))),
        0x3D => dec_u16(s, (|n: u16| Operation::And(AddressingMode::Absolute(n, Index::X)))),
        0x3E => dec_u16(s, (|n: u16| Operation::Rol(AddressingMode::Absolute(n, Index::X)))),
        _ => Err(EmuError::UnknownOpcode),
    }
}

/// The dispatch-table rows whose opcode byte lies in [0x40, 0x4F].
pub open spec fn spec_decode_x4(s: Seq<u8>) -> Result<Option<Operation>, EmuError>
    recommends
        s.len() >= 1,
{
    match s[0] {
        0x40 => Ok(Some(Operation::Rti)),
        0x41 => dec_u8(s, (|n: u8| Operation::Eor(AddressingMode::IndexedIndirect(n)))),
        0x45 => dec_u8(s, (|n: u8| Operation::Eor(AddressingMode::ZeroPage(n, Index::NoIndex)))),
        0x46 => dec_u8(s, (|n: u8| Operation::Lsr(AddressingMode::ZeroPage(n, Index::NoIndex)))),
        0x48 => Ok(Some(Operation::Pha)),
        0x49 => dec_u8(s, (|n: u8| Operation::Eor(AddressingMode::Immediate(n)))),
        0x4A => Ok(Some(Operation::Lsr(AddressingMode::Accumulator))),
        0x4C => dec_u16(s, (|n: u16| Operation::Jmp(AddressingMode::Absolute(n, Index::NoIndex)))),
        0x4D => dec_u16(s, (|n: u16| Operation::Eor(AddressingMode::Absolute(n, Index::NoIndex)))),
        0x4E => dec_u16(s, (|n: u16| Operation::Lsr(AddressingMode::Absolute(n, Index::NoIndex)))),
        _ => Err(EmuError::UnknownOpcode),
    }
}

/// The dispatch-table rows whose opcode byte lies in [0x50, 0x5F].
pub open spec fn spec_decode_x5(s: Seq<u8>) -> Result<Option<Operation>, EmuError>
    recommends
        s.len() >= 1,
{
    match s[0] {
        0x50 => dec_i8(s, (|n: i8| Operation::Bvc(AddressingMode::Relative(n)))),
        0x51 => dec_u8(s, (|n: u8| Operation::Eor(AddressingMode::IndirectIndexed(n)))),
        0x55 => dec_u8(s, (|n: u8| Operation::Eor(AddressingMode::ZeroPage(n, Index::X)))),
        0x56 => dec_u8(s, (|n: u8| Operation::Lsr(AddressingMode::ZeroPage(n, Index::X)))),
        0x58 => Ok(Some(Operation::Cli)),
        0x59 => dec_u16(s, (|n: u16| Operation::Eor(AddressingMode::Absolute(n, Index::Y)))),
        0x5D => dec_u16(s, (|n: u16| Operation::Eor(AddressingMode::Absolute(n, Index::X)))),
        0x5E => dec_u16(s, (|n: u16| Operation::Lsr(AddressingMode::Absolute(n, Index::X)))),
        _ => Err(EmuError::UnknownOpcode),
    }
}

/// The dispatch-table rows whose opcode byte lies in [0x60, 0x6F].
pub open spec fn spec_decode_x6(s: Seq<u8>) -> Result<Option<Operation>, EmuError>
    recommends
        s.len() >= 1,
{
    match s[0] {
        0x60 => Ok(Some(Operation::Rts)),
        0x61 => dec_u8(s, (|n: u8| Operation::Adc(AddressingMode::IndexedIndirect(n)))),
        0x65 => dec_u8(s, (|n: u8| Operation::Adc(AddressingMode::ZeroPage(n, Index::NoIndex)))),
        0x66 => dec_u8(s, (|n: u8| Operation::Ror(AddressingMode::ZeroPage(n, Index::NoIndex)))),
        0x68 => Ok(Some(Operation::Pla)),
        0x69 => dec_u8(s, (|n: u8| Operation::Adc(AddressingMode::Immediate(n)))),
        0x6A => Ok(Some(Operation::Ror(AddressingMode::Accumulator))),
        0x6C => dec_u16(s, (|n: u16| Operation::Jmp(AddressingMode::Indirect(n)))),
        0x6D => dec_u16(s, (|n: u16| Operation::Adc(AddressingMode::Absolute(n, Index::NoIndex)))),
        0x6E => dec_u16(s, (|n: u16| Operation::Ror(AddressingMode::Absolute(n, Index::NoIndex)))),
        _ => Err(EmuError::UnknownOpcode),
    }
}

/// The dispatch-table rows whose opcode byte lies in [0x70, 0x7F].
pub open spec fn spec_decode_x7(s: Seq<u8>) -> Result<Option<Operation>, EmuError>
    recommends
        s.len() >= 1,
{
    match s[0] {
        0x70 => dec_i8(s, (|n: i8| Operation::Bvs(AddressingMode::Relative(n)))),
        0x71 => dec_u8(s, (|n: u8| Operation::Adc(AddressingMode::IndirectIndexed(n)))),
        0x75 => dec_u8(s, (|n: u8| Operation::Adc(AddressingMode::ZeroPage(n, Index::X)))),
        0x76 => dec_u8(s, (|n: u8| Operation::Ror(AddressingMode::ZeroPage(n, Index::X)))),
        0x78 => Ok(Some(Operation::Sei)),
        0x79 => dec_u16(s, (|n: u16| Operation::Adc(AddressingMode::Absolute(n, Index::Y)))),
        0x7D => dec_u16(s, (|n: u16| Operation::Adc(AddressingMode::Absolute(n, Index::X)))),
        0x7E => dec_u16(s, (|n: u16| Operation::Ror(AddressingMode::Absolute(n, Index::X)))),
        _ => Err(EmuError::UnknownOpcode),
    }
}

/// The dispatch-table rows whose opcode byte lies in [0x80, 0x8F].
pub open spec fn spec_decode_x8(s: Seq<u8>) -> Result<Option<Operation>, EmuError>
    recommends
        s.len() >= 1,
{
    match s[0] {
        0x81 => dec_u8(s, (|n: u8| Operation::Sta(AddressingMode::IndexedIndirect(n)))),
        0x84 => dec_u8(s, (|n: u8| Operation::Sty(AddressingMode::ZeroPage(n, Index::NoIndex)))),
        0x85 => dec_u8(s, (|n: u8| Operation::Sta(AddressingMode::ZeroPage(n, Index::NoIndex)))),
        0x86 => dec_u8(s, (|n: u8| Operation::Stx(AddressingMode::ZeroPage(n, Index::NoIndex)))),
        0x88 => Ok(Some(Operation::Dey)),
        0x8A => Ok(Some(Operation::Txa)),
        0x8C => dec_u16(s, (|n: u16| Operation::Sty(AddressingMode::Absolute(n, Index::NoIndex)))),
        0x8D => dec_u16(s, (|n: u16| Operation::Sta(AddressingMode::Absolute(n, Index::NoIndex)))),
        0x8E => dec_u16(s, (|n: u16| Operation::Stx(AddressingMode::Absolute(n, Index::NoIndex)))),
        _ => Err(EmuError::UnknownOpcode),
    }
}

/// The dispatch-table rows whose opcode byte lies in [0x90, 0x9F].
pub open spec fn spec_decode_x9(s: Seq<u8>) -> Result<Option<Operation>, EmuError>
    recommends
        s.len() >= 1,
{
    match s[0] {
        0x90 => dec_i8(s, (|n: i8| Operation::Bcc(AddressingMode::Relative(n)))),
        0x91 => dec_u8(s, (|n: u8| Operation::Sta(AddressingMode::IndirectIndexed(n)))),
        0x94 => dec_u8(s, (|n: u8| Operation::Sty(AddressingMode::ZeroPage(n, Index::X)))),
        0x95 => dec_u8(s, (|n: u8| Operation::Sta(AddressingMode::ZeroPage(n, Index::X)))),
        0x96 => dec_u8(s, (|n: u8| Operation::Stx(AddressingMode::ZeroPage(n, Index::Y)))),
        0x98 => Ok(Some(Operation::Tya)),
        0x99 => dec_u16(s, (|n: u16| Operation::Sta(AddressingMode::Absolute(n, Index::Y)))),
        0x9A => Ok(Some(Operation::Txs)),
        0x9D => dec_u16(s, (|n: u16| Operation::Sta(AddressingMode::Absolute(n, Index::X)))),
        _ => Err(EmuError::UnknownOpcode),
    }
}

/// The dispatch-table rows whose opcode byte lies in [0xA0, 0xAF].
pub open spec fn spec_decode_xa(s: Seq<u8>) -> Result<Option<Operation>, EmuError>
    recommends
        s.len() >= 1,
{
    match s[0] {
        0xA0 => dec_u8(s, (|n: u8| Operation::Ldy(AddressingMode::Immediate(n)))),
        0xA1 => dec_u8(s, (|n: u8| Operation::Lda(AddressingMode::IndexedIndirect(n)))),
        0xA2 => dec_u8(s, (|n: u8| Operation::Ldx(AddressingMode::Immediate(n)))),
        0xA4 => dec_u8(s, (|n: u8| Operation::Ldy(AddressingMode::ZeroPage(n, Index::NoIndex)))),
        0xA5 => dec_u8(s, (|n: u8| Operation::Lda(AddressingMode::ZeroPage(n, Index::NoIndex)))),
        0xA6 => dec_u8(s, (|n: u8| Operation::Ldx(AddressingMode::ZeroPage(n, Index::NoIndex)))),
        0xA8 => Ok(Some(Operation::Tay)),
        0xA9 => dec_u8(s, (|n: u8| Operation::Lda(AddressingMode::Immediate(n)))),
        0xAA => Ok(Some(Operation::Tax)),
        0xAC => dec_u16(s, (|n: u16| Operation::Ldy(AddressingMode::Absolute(n, Index::NoIndex)))),
        0xAD => dec_u16(s, (|n: u16| Operation::Lda(AddressingMode::Absolute(n, Index::NoIndex)))),
        0xAE => dec_u16(s, (|n: u16| Operation::Ldx(AddressingMode::Absolute(n, Index::NoIndex)))),
        _ => Err(EmuError::UnknownOpcode),
    }
}

/// The dispatch-table rows whose opcode byte lies in [0xB0, 0xBF].
pub open spec fn spec_decode_xb(s: Seq<u8>) -> Result<Option<Operation>, EmuError>
    recommends
        s.len() >= 1,
{
    match s[0] {
        0xB0 => dec_i8(s, (|n: i8| Operation::Bcs(AddressingMode::Relative(n)))),
        0xB1 => dec_u8(s, (|n: u8| Operation::Lda(AddressingMode::IndirectIndexed(n)))),
        0xB4 => dec_u8(s, (|n: u8| Operation::Ldy(AddressingMode::ZeroPage(n, Index::X)))),
        0xB5 => dec_u8(s, (|n: u8| Operation::Lda(AddressingMode::ZeroPage(n, Index::X)))),
        0xB6 => dec_u8(s, (|n: u8| Operation::Ldx(AddressingMode::ZeroPage(n, Index::Y)))),
        0xB8 => Ok(Some(Operation::Clv)),
        0xB9 => dec_u16(s, (|n: u16| Operation::Lda(AddressingMode::Absolute(n, Index::Y)))),
        0xBA => Ok(Some(Operation::Tsx)),
        0xBC => dec_u16(s, (|n: u16| Operation::Ldy(AddressingMode::Absolute(n, Index::X)))),
        0xBD => dec_u16(s, (|n: u16| Operation::Lda(AddressingMode::Absolute(n, Index::X)))),
        0xBE => dec_u16(s, (|n: u16| Operation::Ldx(AddressingMode::Absolute(n, Index::Y)))),
        _ => Err(EmuError::UnknownOpcode),
    }
}

/// The dispatch-table rows whose opcode byte lies in [0xC0, 0xCF].
pub open spec fn spec_decode_xc(s: Seq<u8>) -> Result<Option<Operation>, EmuError>
    recommends
        s.len() >= 1,
{
    match s[0] {
        0xC0 => dec_u8(s, (|n: u8| Operation::Cpy(AddressingMode::Immediate(n)))),
        0xC1 => dec_u8(s, (|n: u8| Operation::Cmp(AddressingMode::IndexedIndirect(n)))),
        0xC4 => dec_u8(s, (|n: u8| Operation::Cpy(AddressingMode::ZeroPage(n, Index::NoIndex)))),
        0xC5 => dec_u8(s, (|n: u8| Operation::Cmp(AddressingMode::ZeroPage(n, Index::NoIndex)))),
        0xC6 => dec_u8(s, (|n: u8| Operation::Dec(AddressingMode::ZeroPage(n, Index::NoIndex)))),
        0xC8 => Ok(Some(Operation::Iny)),
        0xC9 => dec_u8(s, (|n: u8| Operation::Cmp(AddressingMode::Immediate(n)))),
        0xCA => Ok(Some(Operation::Dex)),
        0xCC => dec_u16(s, (|n: u16| Operation::Cpy(AddressingMode::Absolute(n, Index::NoIndex)))),
        0xCD => dec_u16(s, (|n: u16| Operation::Cmp(AddressingMode::Absolute(n, Index::NoIndex)))),
        0xCE => dec_u16(s, (|n: u16| Operation::Dec(AddressingMode::Absolute(n, Index::NoIndex)))),
        _ => Err(EmuError::UnknownOpcode),
    }
}

/// The dispatch-table rows whose opcode byte lies in [0xD0, 0xDF].
pub open spec fn spec_decode_xd(s: Seq<u8>) -> Result<Option<Operation>, EmuError>
    recommends
        s.len() >= 1,
{
    match s[0] {
        0xD0 => dec_i8(s, (|n: i8| Operation::Bne(AddressingMode::Relative(n)))),
        0xD1 => dec_u8(s, (|n: u8| Operation::Cmp(AddressingMode::IndirectIndexed(n)))),
        0xD5 => dec_u8(s, (|n: u8| Operation::Cmp(AddressingMode::ZeroPage(n, Index::X)))),
        0xD6 => dec_u8(s, (|n: u8| Operation::Dec(AddressingMode::ZeroPage(n, Index::X)))),
        0xD8 => Ok(Some(Operation::Cld)),
        0xD9 => dec_u16(s, (|n: u16| Operation::Cmp(AddressingMode::Absolute(n, Index::Y)))),
        0xDD => dec_u16(s, (|n: u16| Operation::Cmp(AddressingMode::Absolute(n, Index::X)))),
        0xDE => dec_u16(s, (|n: u16| Operation::Dec(AddressingMode::Absolute(n, Index::X)))),
        _ => Err(EmuError::UnknownOpcode),
    }
}

/// The dispatch-table rows whose opcode byte lies in [0xE0, 0xEF].
pub open spec fn spec_decode_xe(s: Seq<u8>) -> Result<Option<Operation>, EmuError>
    recommends
        s.len() >= 1,
{
    match s[0] {
        0xE0 => dec_u8(s, (|n: u8| Operation::Cpx(AddressingMode::Immediate(n)))),
        0xE1 => dec_u8(s, (|n: u8| Operation::Sbc(AddressingMode::IndexedIndirect(n)))),
        0xE4 => dec_u8(s, (|n: u8| Operation::Cpx(AddressingMode::ZeroPage(n, Index::NoIndex)))),
        0xE5 => dec_u8(s, (|n: u8| Operation::Sbc(AddressingMode::ZeroPage(n, Index::NoIndex)))),
        0xE6 => dec_u8(s, (|n: u8| Operation::Inc(AddressingMode::ZeroPage(n, Index::NoIndex)))),
        0xE8 => Ok(Some(Operation::Inx)),
        0xE9 => dec_u8(s, (|n: u8| Operation::Sbc(AddressingMode::Immediate(n)))),
        0xEA => Ok(Some(Operation::Nop)),
        0xEC => dec_u16(s, (|n: u16| Operation::Cpx(AddressingMode::Absolute(n, Index::NoIndex)))),
        0xED => dec_u16(s, (|n: u16| Operation::Sbc(AddressingMode::Absolute(n, Index::NoIndex)))),
        0xEE => dec_u16(s, (|n: u16| Operation::Inc(AddressingMode::Absolute(n, Index::NoIndex)))),
        _ => Err(EmuError::UnknownOpcode),
    }
}

/// The dispatch-table rows whose opcode byte lies in [0xF0, 0xFF].
pub open spec fn spec_decode_xf(s: Seq<u8>) -> Result<Option<Operation>, EmuError>
    recommends
        s.len() >= 1,
{
    match s[0] {
        0xF0 => dec_i8(s, (|n: i8| Operation::Beq(AddressingMode::Relative(n)))),
        0xF1 => dec_u8(s, (|n: u8| Operation::Sbc(AddressingMode::IndirectIndexed(n)))),
        0xF5 => dec_u8(s, (|n: u8| Operation::Sbc(AddressingMode::ZeroPage(n, Index::X)))),
        0xF6 => dec_u8(s, (|n: u8| Operation::Inc(AddressingMode::ZeroPage(n, Index::X)))),
        0xF8 => Ok(Some(Operation::Sed)),
        0xF9 => dec_u16(s, (|n: u16| Operation::Sbc(AddressingMode::Absolute(n, Index::Y)))),
        0xFD => dec_u16(s, (|n: u16| Operation::Sbc(AddressingMode::Absolute(n, Index::X)))),
        0xFE => dec_u16(s, (|n: u16| Operation::Inc(AddressingMode::Absolute(n, Index::X)))),
        0xFF => Ok(Some(Operation::Halt)),
        _ => Err(EmuError::UnknownOpcode),
    }
}

/// How many operand bytes follow each opcode byte (the software interrupt
/// consumes one padding byte).
pub open spec fn operand_bytes(b: u8) -> int {
    if b < 0x10 {
        operand_bytes_x0(b)
    } else if b < 0x20 {
        operand_bytes_x1(b)
    } else if b < 0x30 {
        operand_bytes_x2(b)
    } else if b < 0x40 {
        operand_bytes_x3(b)
    } else if b < 0x50 {
        operand_bytes_x4(b)
    } else if b < 0x60 {
        operand_bytes_x5(b)
    } else if b < 0x70 {
        operand_bytes_x6(b)
    } else if b < 0x80 {
        operand_bytes_x7(b)
    } else if b < 0x90 {
        operand_bytes_x8(b)
    } else if b < 0xa0 {
        operand_bytes_x9(b)
    } else if b < 0xb0 {
        operand_bytes_xa(b)
    } else if b < 0xc0 {
        operand_bytes_xb(b)
    } else if b < 0xd0 {
        operand_bytes_xc(b)
    } else if b < 0xe0 {
        operand_bytes_xd(b)
    } else if b < 0xf0 {
        operand_bytes_xe(b)
    } else {
        operand_bytes_xf(b)
    }
}

/// The dispatch table as a function on the remaining byte stream: an empty
/// stream is a clean end, an unlisted opcode byte fails, and a listed one
/// yields its instruction or fails when its operand bytes are missing.
pub open spec fn spec_decode(s: Seq<u8>) -> Result<Option<Operation>, EmuError> {
    if s.len() == 0 {
        Ok(Option::<Operation>::None)
    } else if s[0] < 0x10 {
        spec_decode_x0(s)
    } else if s[0] < 0x20 {
        spec_decode_x1(s)
    } else if s[0] < 0x30 {
        spec_decode_x2(s)
    } else if s[0] < 0x40 {
        spec_decode_x3(s)
    } else if s[0] < 0x50 {
        spec_decode_x4(s)
    } else if s[0] < 0x60 {
        spec_decode_x5(s)
    } else if s[0] < 0x70 {
        spec_decode_x6(s)
    } else if s[0] < 0x80 {
        spec_decode_x7(s)
    } else if s[0] < 0x90 {
        spec_decode_x8(s)
    } else if s[0] < 0xa0 {
        spec_decode_x9(s)
    } else if s[0] < 0xb0 {
        spec_decode_xa(s)
    } else if s[0] < 0xc0 {
        spec_decode_xb(s)
    } else if s[0] < 0xd0 {
        spec_decode_xc(s)
    } else if s[0] < 0xe0 {
        spec_decode_xd(s)
    } else if s[0] < 0xf0 {
        spec_decode_xe(s)
    } else {
        spec_decode_xf(s)
    }
}

/// Decode the operand bytes of an opcode in [0x00, 0x0F], the opcode
/// byte itself already consumed. `s0` is the stream from the opcode on.
#[verifier::rlimit(60)]
fn parse_x0<T: Cursor>(
    cursor: &mut T,
    operator: u8,
    Ghost(s0): Ghost<Seq<u8>>,
) -> (r: Result<Option<Operation>, EmuError>)
    requires
        1 <= old(cursor).pos() <= old(cursor).stream().len(),
        s0 == old(cursor).stream().skip(old(cursor).pos() - 1),
        s0.len() >= 1,
        s0[0] == operator,
        0x00 <= operator < 0x10,
    ensures
        final(cursor).stream() == old(cursor).stream(),
        old(cursor).pos() <= final(cursor).pos() <= old(cursor).stream().len(),
        r == spec_decode_x0(s0),
        r matches Ok(Some(op)) ==> op.wf() && final(cursor).pos() == old(cursor).pos()
            + operand_bytes_x0(operator),
        r == Err::<Option<Operation>, EmuError>(EmuError::UnknownOpcode) ==> final(cursor).pos()
            == old(cursor).pos(),
        r == Err::<Option<Operation>, EmuError>(EmuError::TruncatedOperand) ==> final(cursor).pos()
            == old(cursor).stream().len(),
{
    let operation = match operator {
        0x00 => {
            let _pad: u8 = match cursor.need_u8() {
                Ok(b) => b,
                Err(e) => return Err(e),
            };
            Operation::Brk
        },
        0x01 => {
            let n: u8 = match cursor.need_u8() {
                Ok(n) => n,
                Err(e) => return Err(e),
            };
            Operation::Ora(AddressingMode::IndexedIndirect(n))
        },
        0x05 => {
            let n: u8 = match cursor.need_u8() {
                Ok(n) => n,
                Err(e) => return Err(e),
            };
            Operation::Ora(AddressingMode::ZeroPage(n, Index::NoIndex))
        },
        0x06 => {
            let n: u8 = match cursor.need_u8() {
                Ok(n) => n,
                Err(e) => return Err(e),
            };
            Operation::Asl(AddressingMode::ZeroPage(n, Index::NoIndex))
        },
        0x08 => Operation::Php,
        0x09 => {
            let n: u8 = match cursor.need_u8() {
                Ok(n) => n,
                Err(e) => return Err(e),
            };
            Operation::Ora(AddressingMode::Immediate(n))
        },
        0x0A => Operation::Asl(AddressingMode::Accumulator),
        0x0D => {
            let n: u16 = match cursor.need_u16() {
                Ok(n) => n,
                Err(e) => return Err(e),
            };
            Operation::Ora(AddressingMode::Absolute(n, Index::NoIndex))
        },
        0x0E => {
            let n: u16 = match cursor.need_u16() {
                Ok(n) => n,
                Err(e) => return Err(e),
            };
            Operation::Asl(AddressingMode::Absolute(n, Index::NoIndex))
        },
        _ => {
            return Err(EmuError::UnknownOpcode);
        },
    };
    Ok(Some(operation))
}

/// Decode the operand bytes of an opcode in [0x10, 0x1F], the opcode
/// byte itself already consumed. `s0` is the stream from the opcode on.
#[verifier::rlimit(60)]
fn parse_x1<T: Cursor>(
    cursor: &mut T,
    operator: u8,
    Ghost(s0): Ghost<Seq<u8>>,
) -> (r: Result<Option<Operation>, EmuError>)
    requires
        1 <= old(cursor).pos() <= old(cursor).stream().len(),
        s0 == old(cursor).stream().skip(old(cursor).pos() - 1),
        s0.len() >= 1,
        s0[0] == operator,
        0x10 <= operator < 0x20,
    ensures
        final(cursor).stream() == old(cursor).stream(),
        old(cursor).pos() <= final(cursor).pos() <= old(cursor).stream().len(),
        r == spec_decode_x1(s0),
        r matches Ok(Some(op)) ==> op.wf() && final(cursor).pos() == old(cursor).pos()
            + operand_bytes_x1(operator),
        r == Err::<Option<Operation>, EmuError>(EmuError::UnknownOpcode) ==> final(cursor).pos()
            == old(cursor).pos(),
        r == Err::<Option<Operation>, EmuError>(EmuError::TruncatedOperand) ==> final(cursor).pos()
            == old(cursor).stream().len(),
{
    let operation = match operator {
        0x10 => {
            let n: i8 = match cursor.need_i8() {
                Ok(n) => n,
                Err(e) => return Err(e),
            };
            Operation::Bpl(AddressingMode::Relative(n))
        },
        0x11 => {
            let n: u8 = match cursor.need_u8() {
                Ok(n) => n,
                Err(e) => return Err(e),
            };
            Operation::Ora(AddressingMode::IndirectIndexed(n))
        },
        0x15 => {
            let n: u8 = match cursor.need_u8() {
                Ok(n) => n,
                Err(e) => return Err(e),
            };
            Operation::Ora(AddressingMode::ZeroPage(n, Index::X))
        },
        0x16 => {
            let n: u8 = match cursor.need_u8() {
                Ok(n) => n,
                Err(e) => return Err(e),
            };
            Operation::Asl(AddressingMode::ZeroPage(n, Index::X))
        },
        0x18 => Operation::Clc,
        0x19 => {
            let n: u16 = match cursor.need_u16() {
                Ok(n) => n,
                Err(e) => return Err(e),
            };
            Operation::Ora(AddressingMode::Absolute(n, Index::Y))
        },
        0x1D => {
            let n: u16 = match cursor.need_u16() {
                Ok(n) => n,
                Err(e) => return Err(e),
            };
            Operation::Ora(AddressingMode::Absolute(n, Index::X))
        },
        0x1E => {
            let n: u16 = match cursor.need_u16() {
                Ok(n) => n,
                Err(e) => return Err(e),
            };
            Operation::Asl(AddressingMode::Absolute(n, Index::X))
        },
        _ => {
            return Err(EmuError::UnknownOpcode);
        },
    };
    Ok(Some(operation))
}

/// Decode the operand bytes of an opcode in [0x20, 0x2F], the opcode
/// byte itself already consumed. `s0` is the stream from the opcode on.
#[verifier::rlimit(60)]
fn parse_x2<T: Cursor>(
    cursor: &mut T,
    operator: u8,
    Ghost(s0): Ghost<Seq<u8>>,
) -> (r: Result<Option<Operation>, EmuError>)
    requires
        1 <= old(cursor).pos() <= old(cursor).stream().len(),
        s0 == old(cursor).stream().skip(old(cursor).pos() - 1),
        s0.len() >= 1,
        s0[0] == operator,
        0x20 <= operator < 0x30,
    ensures
        final(cursor).stream() == old(cursor).stream(),
        old(cursor).pos() <= final(cursor).pos() <= old(cursor).stream().len(),
        r == spec_decode_x2(s0),
        r matches Ok(Some(op)) ==> op.wf() && final(cursor).pos() == old(cursor).pos()
            + operand_bytes_x2(operator),
        r == Err::<Option<Operation>, EmuError>(EmuError::UnknownOpcode) ==> final(cursor).pos()
            == old(cursor).pos(),
        r == Err::<Option<Operation>, EmuError>(EmuError::TruncatedOperand) ==> final(cursor).pos()
            == old(cursor).stream().len(),
{
    let operation = match operator {
        0x20 => {
            let n: u16 = match cursor.need_u16() {
                Ok(n) => n,
                Err(e) => return Err(e),
            };
            Operation::Jsr(AddressingMode::Absolute(n, Index::NoIndex))
        },
        0x21 => {
            let n: u8 = match cursor.need_u8() {
                Ok(n) => n,
                Err(e) => return Err(e),
            };
            Operation::And(AddressingMode::IndexedIndirect(n))
        },
        0x24 => {
            let n: u8 = match cursor.need_u8() {
                Ok(n) => n,
                Err(e) => return Err(e),
            };
            Operation::Bit(AddressingMode::ZeroPage(n, Index::NoIndex))
        },
        0x25 => {
            let n: u8 = match cursor.need_u8() {
                Ok(n) => n,
                Err(e) => return Err(e),
            };
            Operation::And(AddressingMode::ZeroPage(n, Index::NoIndex))
        },
        0x26 => {
            let n: u8 = match cursor.need_u8() {
                Ok(n) => n,
                Err(e) => return Err(e),
            };
            Operation::Rol(AddressingMode::ZeroPage(n, Index::NoIndex))
        },
        0x28 => Operation::Plp,
        0x29 => {
            let n: u8 = match cursor.need_u8() {
                Ok(n) => n,
                Err(e) => return Err(e),
            };
            Operation::And(AddressingMode::Immediate(n))
        },
        0x2A => Operation::Rol(AddressingMode::Accumulator),
        0x2C => {
            let n: u16 = match cursor.need_u16() {
                Ok(n) => n,
                Err(e) => return Err(e),
            };
            Operation::Bit(AddressingMode::Absolute(n, Index::NoIndex))
        },
        0x2D => {
            let n: u16 = match cursor.need_u16() {
                Ok(n) => n,
                Err(e) => return Err(e),
            };
            Operation::And(AddressingMode::Absolute(n, Index::NoIndex))
        },
        0x2E => {
            let n: u16 = match cursor.need_u16() {
                Ok(n) => n,
                Err(e) => return Err(e),
            };
            Operation::Rol(AddressingMode::Absolute(n, Index::NoIndex))
        },
        _ => {
            return Err(EmuError::UnknownOpcode);
        },
    };
    Ok(Some(operation))
}

/// Decode the operand bytes of an opcode in [0x30, 0x3F], the opcode
/// byte itself already consumed. `s0` is the stream from the opcode on.
#[verifier::rlimit(60)]
fn parse_x3<T: Cursor>(
    cursor: &mut T,
    operator: u8,
    Ghost(s0): Ghost<Seq<u8>>,
) -> (r: Result<Option<Operation>, EmuError>)
    requires
        1 <= old(cursor).pos() <= old(cursor).stream().len(),
        s0 == old(cursor).stream().skip(old(cursor).pos() - 1),
        s0.len() >= 1,
        s0[0] == operator,
        0x30 <= operator < 0x40,
    ensures
        final(cursor).stream() == old(cursor).stream(),
        old(cursor).pos() <= final(cursor).pos() <= old(cursor).stream().len(),
        r == spec_decode_x3(s0),
        r matches Ok(Some(op)) ==> op.wf() && final(cursor).pos() == old(cursor).pos()
            + operand_bytes_x3(operator),
        r == Err::<Option<Operation>, EmuError>(EmuError::UnknownOpcode) ==> final(cursor).pos()
            == old(cursor).pos(),
        r == Err::<Option<Operation>, EmuError>(EmuError::TruncatedOperand) ==> final(cursor).pos()
            == old(cursor).stream().len(),
{
    let operation = match operator {
        0x30 => {
            let n: i8 = match cursor.need_i8() {
                Ok(n) => n,
                Err(e) => return Err(e),
            };
            Operation::Bmi(AddressingMode::Relative(n))
        },
        0x31 => {
            let n: u8 = match cursor.need_u8() {
                Ok(n) => n,
                Err(e) => return Err(e),
            };
            Operation::And(AddressingMode::IndirectIndexed(n))
        },
        0x35 => {
            let n: u8 = match cursor.need_u8() {
                Ok(n) => n,
                Err(e) => return Err(e),
            };
            Operation::And(AddressingMode::ZeroPage(n, Index::X))
        },
        0x36 => {
            let n: u8 = match cursor.need_u8() {
                Ok(n) => n,
                Err(e) => return Err(e),
            };
            Operation::Rol(AddressingMode::ZeroPage(n, Index::X))
        },
        0x38 => Operation::Sec,
        0x39 => {
            let n: u16 = match cursor.need_u16() {
                Ok(n) => n,
                Err(e) => return Err(e),
            };
            Operation::And(AddressingMode::Absolute(n, Index::Y))
        },
        0x3D => {
            let n: u16 = match cursor.need_u16() {
                Ok(n) => n,
                Err(e) => return Err(e),
            };
            Operation::And(AddressingMode::Absolute(n, Index::X))
        },
        0x3E => {
            let n: u16 = match cursor.need_u16() {
                Ok(n) => n,
                Err(e) => return Err(e),
            };
            Operation::Rol(AddressingMode::Absolute(n, Index::X))
        },
        _ => {
            return Err(EmuError::UnknownOpcode);
        },
    };
    Ok(Some(operation))
}

/// Decode the operand bytes of an opcode in [0x40, 0x4F], the opcode
/// byte itself already consumed. `s0` is the stream from the opcode on.
#[verifier::rlimit(60)]
fn parse_x4<T: Cursor>(
    cursor: &mut T,
    operator: u8,
    Ghost(s0): Ghost<Seq<u8>>,
) -> (r: Result<Option<Operation>, EmuError>)
    requires
        1 <= old(cursor).pos() <= old(cursor).stream().len(),
        s0 == old(cursor).stream().skip(old(cursor).pos() - 1),
        s0.len() >= 1,
        s0[0] == operator,
        0x40 <= operator < 0x50,
    ensures
        final(cursor).stream() == old(cursor).stream(),
        old(cursor).pos() <= final(cursor).pos() <= old(cursor).stream().len(),
        r == spec_decode_x4(s0),
        r matches Ok(Some(op)) ==> op.wf() && final(cursor).pos() == old(cursor).pos()
            + operand_bytes_x4(operator),
        r == Err::<Option<Operation>, EmuError>(EmuError::UnknownOpcode) ==> final(cursor).pos()
            == old(cursor).pos(),
        r == Err::<Option<Operation>, EmuError>(EmuError::TruncatedOperand) ==> final(cursor).pos()
            == old(cursor).stream().len(),
{
    let operation = match operator {
        0x40 => Operation::Rti,
        0x41 => {
            let n: u8 = match cursor.need_u8() {
                Ok(n) => n,
                Err(e) => return Err(e),
            };
            Operation::Eor(AddressingMode::IndexedIndirect(n))
        },
        0x45 => {
            let n: u8 = match cursor.need_u8() {
                Ok(n) => n,
                Err(e) => return Err(e),
            };
            Operation::Eor(AddressingMode::ZeroPage(n, Index::NoIndex))
        },
        0x46 => {
            let n: u8 = match cursor.need_u8() {
                Ok(n) => n,
                Err(e) => return Err(e),
            };
            Operation::Lsr(AddressingMode::ZeroPage(n, Index::NoIndex))
        },
        0x48 => Operation::Pha,
        0x49 => {
            let n: u8 = match cursor.need_u8() {
                Ok(n) => n,
                Err(e) => return Err(e),
            };
            Operation::Eor(AddressingMode::Immediate(n))
        },
        0x4A => Operation::Lsr(AddressingMode::Accumulator),
        0x4C => {
            let n: u16 = match cursor.need_u16() {
                Ok(n) => n,
                Err(e) => return Err(e),
            };
            Operation::Jmp(AddressingMode::Absolute(n, Index::NoIndex))
        },
        0x4D => {
            let n: u16 = match cursor.need_u16() {
                Ok(n) => n,
                Err(e) => return Err(e),
            };
            Operation::Eor(AddressingMode::Absolute(n, Index::NoIndex))
        },
        0x4E => {
            let n: u16 = match cursor.need_u16() {
                Ok(n) => n,
                Err(e) => return Err(e),
            };
            Operation::Lsr(AddressingMode::Absolute(n, Index::NoIndex))
        },
        _ => {
            return Err(EmuError::UnknownOpcode);
        },
    };
    Ok(Some(operation))
}

/// Decode the operand bytes of an opcode in [0x50, 0x5F], the opcode
/// byte itself already consumed. `s0` is the stream from the opcode on.
#[verifier::rlimit(60)]
fn parse_x5<T: Cursor>(
    cursor: &mut T,
    operator: u8,
    Ghost(s0): Ghost<Seq<u8>>,
) -> (r: Result<Option<Operation>, EmuError>)
    requires
        1 <= old(cursor).pos() <= old(cursor).stream().len(),
        s0 == old(cursor).stream().skip(old(cursor).pos() - 1),
        s0.len() >= 1,
        s0[0] == operator,
        0x50 <= operator < 0x60,
    ensures
        final(cursor).stream() == old(cursor).stream(),
        old(cursor).pos() <= final(cursor).pos() <= old(cursor).stream().len(),
        r == spec_decode_x5(s0),
        r matches Ok(Some(op)) ==> op.wf() && final(cursor).pos() == old(cursor).pos()
            + operand_bytes_x5(operator),
        r == Err::<Option<Operation>, EmuError>(EmuError::UnknownOpcode) ==> final(cursor).pos()
            == old(cursor).pos(),
        r == Err::<Option<Operation>, EmuError>(EmuError::TruncatedOperand) ==> final(cursor).pos()
            == old(cursor).stream().len(),
{
    let operation = match operator {
        0x50 => {
            let n: i8 = match cursor.need_i8() {
                Ok(n) => n,
                Err(e) => return Err(e),
            };
            Operation::Bvc(AddressingMode::Relative(n))
        },
        0x51 => {
            let n: u8 = match cursor.need_u8() {
                Ok(n) => n,
                Err(e) => return Err(e),
            };
            Operation::Eor(AddressingMode::IndirectIndexed(n))
        },
        0x55 => {
            let n: u8 = match cursor.need_u8() {
                Ok(n) => n,
                Err(e) => return Err(e),
            };
            Operation::Eor(AddressingMode::ZeroPage(n, Index::X))
        },
        0x56 => {
            let n: u8 = match cursor.need_u8() {
                Ok(n) => n,
                Err(e) => return Err(e),
            };
            Operation::Lsr(AddressingMode::ZeroPage(n, Index::X))
        },
        0x58 => Operation::Cli,
        0x59 => {
            let n: u16 = match cursor.need_u16() {
                Ok(n) => n,
                Err(e) => return Err(e),
            };
            Operation::Eor(AddressingMode::Absolute(n, Index::Y))
        },
        0x5D => {
            let n: u16 = match cursor.need_u16() {
                Ok(n) => n,
                Err(e) => return Err(e),
            };
            Operation::Eor(AddressingMode::Absolute(n, Index::X))
        },
        0x5E => {
            let n: u16 = match cursor.need_u16() {
                Ok(n) => n,
                Err(e) => return Err(e),
            };
            Operation::Lsr(AddressingMode::Absolute(n, Index::X))
        },
        _ => {
            return Err(EmuError::UnknownOpcode);
        },
    };
    Ok(Some(operation))
}

/// Decode the operand bytes of an opcode in [0x60, 0x6F], the opcode
/// byte itself already consumed. `s0` is the stream from the opcode on.
#[verifier::rlimit(60)]
fn parse_x6<T: Cursor>(
    cursor: &mut T,
    operator: u8,
    Ghost(s0): Ghost<Seq<u8>>,
) -> (r: Result<Option<Operation>, EmuError>)
    requires
        1 <= old(cursor).pos() <= old(cursor).stream().len(),
        s0 == old(cursor).stream().skip(old(cursor).pos() - 1),
        s0.len() >= 1,
        s0[0] == operator,
        0x60 <= operator < 0x70,
    ensures
        final(cursor).stream() == old(cursor).stream(),
        old(cursor).pos() <= final(cursor).pos() <= old(cursor).stream().len(),
        r == spec_decode_x6(s0),
        r matches Ok(Some(op)) ==> op.wf() && final(cursor).pos() == old(cursor).pos()
            + operand_bytes_x6(operator),
        r == Err::<Option<Operation>, EmuError>(EmuError::UnknownOpcode) ==> final(cursor).pos()
            == old(cursor).pos(),
        r == Err::<Option<Operation>, EmuError>(EmuError::TruncatedOperand) ==> final(cursor).pos()
            == old(cursor).stream().len(),
{
    let operation = match operator {
        0x60 => Operation::Rts,
        0x61 => {
            let n: u8 = match cursor.need_u8() {
                Ok(n) => n,
                Err(e) => return Err(e),
            };
            Operation::Adc(AddressingMode::IndexedIndirect(n))
        },
        0x65 => {
            let n: u8 = match cursor.need_u8() {
                Ok(n) => n,
                Err(e) => return Err(e),
            };
            Operation::Adc(AddressingMode::ZeroPage(n, Index::NoIndex))
        },
        0x66 => {
            let n: u8 = match cursor.need_u8() {
                Ok(n) => n,
                Err(e) => return Err(e),
            };
            Operation::Ror(AddressingMode::ZeroPage(n, Index::NoIndex))
        },
        0x68 => Operation::Pla,
        0x69 => {
            let n: u8 = match cursor.need_u8() {
                Ok(n) => n,
                Err(e) => return Err(e),
            };
            Operation::Adc(AddressingMode::Immediate(n))
        },
        0x6A => Operation::Ror(AddressingMode::Accumulator),
        0x6C => {
            let n: u16 = match cursor.need_u16() {
                Ok(n) => n,
                Err(e) => return Err(e),
            };
            Operation::Jmp(AddressingMode::Indirect(n))
        },
        0x6D => {
            let n: u16 = match cursor.need_u16() {
                Ok(n) => n,
                Err(e) => return Err(e),
            };
            Operation::Adc(AddressingMode::Absolute(n, Index::NoIndex))
        },
        0x6E => {
            let n: u16 = match cursor.need_u16() {
                Ok(n) => n,
                Err(e) => return Err(e),
            };
            Operation::Ror(AddressingMode::Absolute(n, Index::NoIndex))
        },
        _ => {
            return Err(EmuError::UnknownOpcode);
        },
    };
    Ok(Some(operation))
}

/// Decode the operand bytes of an opcode in [0x70, 0x7F], the opcode
/// byte itself already consumed. `s0` is the stream from the opcode on.
#[verifier::rlimit(60)]
fn parse_x7<T: Cursor>(
    cursor: &mut T,
    operator: u8,
    Ghost(s0): Ghost<Seq<u8>>,
) -> (r: Result<Option<Operation>, EmuError>)
    requires
        1 <= old(cursor).pos() <= old(cursor).stream().len(),
        s0 == old(cursor).stream().skip(old(cursor).pos() - 1),
        s0.len() >= 1,
        s0[0] == operator,
        0x70 <= operator < 0x80,
    ensures
        final(cursor).stream() == old(cursor).stream(),
        old(cursor).pos() <= final(cursor).pos() <= old(cursor).stream().len(),
        r == spec_decode_x7(s0),
        r matches Ok(Some(op)) ==> op.wf() && final(cursor).pos() == old(cursor).pos()
            + operand_bytes_x7(operator),
        r == Err::<Option<Operation>, EmuError>(EmuError::UnknownOpcode) ==> final(cursor).pos()
            == old(cursor).pos(),
        r == Err::<Option<Operation>, EmuError>(EmuError::TruncatedOperand) ==> final(cursor).pos()
            == old(cursor).stream().len(),
{
    let operation = match operator {
        0x70 => {
            let n: i8 = match cursor.need_i8() {
                Ok(n) => n,
                Err(e) => return Err(e),
            };
            Operation::Bvs(AddressingMode::Relative(n))
        },
        0x71 => {
            let n: u8 = match cursor.need_u8() {
                Ok(n) => n,
                Err(e) => return Err(e),
            };
            Operation::Adc(AddressingMode::IndirectIndexed(n))
        },
        0x75 => {
            let n: u8 = match cursor.need_u8() {
                Ok(n) => n,
                Err(e) => return Err(e),
            };
            Operation::Adc(AddressingMode::ZeroPage(n, Index::X))
        },
        0x76 => {
            let n: u8 = match cursor.need_u8() {
                Ok(n) => n,
                Err(e) => return Err(e),
            };
            Operation::Ror(AddressingMode::ZeroPage(n, Index::X))
        },
        0x78 => Operation::Sei,
        0x79 => {
            let n: u16 = match cursor.need_u16() {
                Ok(n) => n,
                Err(e) => return Err(e),
            };
            Operation::Adc(AddressingMode::Absolute(n, Index::Y))
        },
        0x7D => {
            let n: u16 = match cursor.need_u16() {
                Ok(n) => n,
                Err(e) => return Err(e),
            };
            Operation::Adc(AddressingMode::Absolute(n, Index::X))
        },
        0x7E => {
            let n: u16 = match cursor.need_u16() {
                Ok(n) => n,
                Err(e) => return Err(e),
            };
            Operation::Ror(AddressingMode::Absolute(n, Index::X))
        },
        _ => {
            return Err(EmuError::UnknownOpcode);
        },
    };
    Ok(Some(operation))
}

/// Decode the operand bytes of an opcode in [0x80, 0x8F], the opcode
/// byte itself already consumed. `s0` is the stream from the opcode on.
#[verifier::rlimit(60)]
fn parse_x8<T: Cursor>(
    cursor: &mut T,
    operator: u8,
    Ghost(s0): Ghost<Seq<u8>>,
) -> (r: Result<Option<Operation>, EmuError>)
    requires
        1 <= old(cursor).pos() <= old(cursor).stream().len(),
        s0 == old(cursor).stream().skip(old(cursor).pos() - 1),
        s0.len() >= 1,
        s0[0] == operator,
        0x80 <= operator < 0x90,
    ensures
        final(cursor).stream() == old(cursor).stream(),
        old(cursor).pos() <= final(cursor).pos() <= old(cursor).stream().len(),
        r == spec_decode_x8(s0),
        r matches Ok(Some(op)) ==> op.wf() && final(cursor).pos() == old(cursor).pos()
            + operand_bytes_x8(operator),
        r == Err::<Option<Operation>, EmuError>(EmuError::UnknownOpcode) ==> final(cursor).pos()
            == old(cursor).pos(),
        r == Err::<Option<Operation>, EmuError>(EmuError::TruncatedOperand) ==> final(cursor).pos()
            == old(cursor).stream().len(),
{
    let operation = match operator {
        0x81 => {
            let n: u8 = match cursor.need_u8() {
                Ok(n) => n,
                Err(e) => return Err(e),
            };
            Operation::Sta(AddressingMode::IndexedIndirect(n))
        },
        0x84 => {
            let n: u8 = match cursor.need_u8() {
                Ok(n) => n,
                Err(e) => return Err(e),
            };
            Operation::Sty(AddressingMode::ZeroPage(n, Index::NoIndex))
        },
        0x85 => {
            let n: u8 = match cursor.need_u8() {
                Ok(n) => n,
                Err(e) => return Err(e),
            };
            Operation::Sta(AddressingMode::ZeroPage(n, Index::NoIndex))
        },
        0x86 => {
            let n: u8 = match cursor.need_u8() {
                Ok(n) => n,
                Err(e) => return Err(e),
            };
            Operation::Stx(AddressingMode::ZeroPage(n, Index::NoIndex))
        },
        0x88 => Operation::Dey,
        0x8A => Operation::Txa,
        0x8C => {
            let n: u16 = match cursor.need_u16() {
                Ok(n) => n,
                Err(e) => return Err(e),
            };
            Operation::Sty(AddressingMode::Absolute(n, Index::NoIndex))
        },
        0x8D => {
            let n: u16 = match cursor.need_u16() {
                Ok(n) => n,
                Err(e) => return Err(e),
            };
            Operation::Sta(AddressingMode::Absolute(n, Index::NoIndex))
        },
        0x8E => {
            let n: u16 = match cursor.need_u16() {
                Ok(n) => n,
                Err(e) => return Err(e),
            };
            Operation::Stx(AddressingMode::Absolute(n, Index::NoIndex))
        },
        _ => {
            return Err(EmuError::UnknownOpcode);
        },
    };
    Ok(Some(operation))
}

/// Decode the operand bytes of an opcode in [0x90, 0x9F], the opcode
/// byte itself already consumed. `s0` is the stream from the opcode on.
#[verifier::rlimit(60)]
fn parse_x9<T: Cursor>(
    cursor: &mut T,
    operator: u8,
    Ghost(s0): Ghost<Seq<u8>>,
) -> (r: Result<Option<Operation>, EmuError>)
    requires
        1 <= old(cursor).pos() <= old(cursor).stream().len(),
        s0 == old(cursor).stream().skip(old(cursor).pos() - 1),
        s0.len() >= 1,
        s0[0] == operator,
        0x90 <= operator < 0xa0,
    ensures
        final(cursor).stream() == old(cursor).stream(),
        old(cursor).pos() <= final(cursor).pos() <= old(cursor).stream().len(),
        r == spec_decode_x9(s0),
        r matches Ok(Some(op)) ==> op.wf() && final(cursor).pos() == old(cursor).pos()
            + operand_bytes_x9(operator),
        r == Err::<Option<Operation>, EmuError>(EmuError::UnknownOpcode) ==> final(cursor).pos()
            == old(cursor).pos(),
        r == Err::<Option<Operation>, EmuError>(EmuError::TruncatedOperand) ==> final(cursor).pos()
            == old(cursor).stream().len(),
{
    let operation = match operator {
        0x90 => {
            let n: i8 = match cursor.need_i8() {
                Ok(n) => n,
                Err(e) => return Err(e),
            };
            Operation::Bcc(AddressingMode::Relative(n))
        },
        0x91 => {
            let n: u8 = match cursor.need_u8() {
                Ok(n) => n,
                Err(e) => return Err(e),
            };
            Operation::Sta(AddressingMode::IndirectIndexed(n))
        },
        0x94 => {
            let n: u8 = match cursor.need_u8() {
                Ok(n) => n,
                Err(e) => return Err(e),
            };
            Operation::Sty(AddressingMode::ZeroPage(n, Index::X))
        },
        0x95 => {
            let n: u8 = match cursor.need_u8() {
                Ok(n) => n,
                Err(e) => return Err(e),
            };
            Operation::Sta(AddressingMode::ZeroPage(n, Index::X))
        },
        0x96 => {
            let n: u8 = match cursor.need_u8() {
                Ok(n) => n,
                Err(e) => return Err(e),
            };
            Operation::Stx(AddressingMode::ZeroPage(n, Index::Y))
        },
        0x98 => Operation::Tya,
        0x99 => {
            let n: u16 = match cursor.need_u16() {
                Ok(n) => n,
                Err(e) => return Err(e),
            };
            Operation::Sta(AddressingMode::Absolute(n, Index::Y))
        },
        0x9A => Operation::Txs,
        0x9D => {
            let n: u16 = match cursor.need_u16() {
                Ok(n) => n,
                Err(e) => return Err(e),
            };
            Operation::Sta(AddressingMode::Absolute(n, Index::X))
        },
        _ => {
            return Err(EmuError::UnknownOpcode);
        },
    };
    Ok(Some(operation))
}

/// Decode the operand bytes of an opcode in [0xA0, 0xAF], the opcode
/// byte itself already consumed. `s0` is the stream from the opcode on.
#[verifier::rlimit(60)]
fn parse_xa<T: Cursor>(
    cursor: &mut T,
    operator: u8,
    Ghost(s0): Ghost<Seq<u8>>,
) -> (r: Result<Option<Operation>, EmuError>)
    requires
        1 <= old(cursor).pos() <= old(cursor).stream().len(),
        s0 == old(cursor).stream().skip(old(cursor).pos() - 1),
        s0.len() >= 1,
        s0[0] == operator,
        0xA0 <= operator < 0xb0,
    ensures
        final(cursor).stream() == old(cursor).stream(),
        old(cursor).pos() <= final(cursor).pos() <= old(cursor).stream().len(),
        r == spec_decode_xa(s0),
        r matches Ok(Some(op)) ==> op.wf() && final(cursor).pos() == old(cursor).pos()
            + operand_bytes_xa(operator),
        r == Err::<Option<Operation>, EmuError>(EmuError::UnknownOpcode) ==> final(cursor).pos()
            == old(cursor).pos(),
        r == Err::<Option<Operation>, EmuError>(EmuError::TruncatedOperand) ==> final(cursor).pos()
            == old(cursor).stream().len(),
{
    let operation = match operator {
        0xA0 => {
            let n: u8 = match cursor.need_u8() {
                Ok(n) => n,
                Err(e) => return Err(e),
            };
            Operation::Ldy(AddressingMode::Immediate(n))
        },
        0xA1 => {
            let n: u8 = match cursor.need_u8() {
                Ok(n) => n,
                Err(e) => return Err(e),
            };
            Operation::Lda(AddressingMode::IndexedIndirect(n))
        },
        0xA2 => {
            let n: u8 = match cursor.need_u8() {
                Ok(n) => n,
                Err(e) => return Err(e),
            };
            Operation::Ldx(AddressingMode::Immediate(n))
        },
        0xA4 => {
            let n: u8 = match cursor.need_u8() {
                Ok(n) => n,
                Err(e) => return Err(e),
            };
            Operation::Ldy(AddressingMode::ZeroPage(n, Index::NoIndex))
        },
        0xA5 => {
            let n: u8 = match cursor.need_u8() {
                Ok(n) => n,
                Err(e) => return Err(e),
            };
            Operation::Lda(AddressingMode::ZeroPage(n, Index::NoIndex))
        },
        0xA6 => {
            let n: u8 = match cursor.need_u8() {
                Ok(n) => n,
                Err(e) => return Err(e),
            };
            Operation::Ldx(AddressingMode::ZeroPage(n, Index::NoIndex))
        },
        0xA8 => Operation::Tay,
        0xA9 => {
            let n: u8 = match cursor.need_u8() {
                Ok(n) => n,
                Err(e) => return Err(e),
            };
            Operation::Lda(AddressingMode::Immediate(n))
        },
        0xAA => Operation::Tax,
        0xAC => {
            let n: u16 = match cursor.need_u16() {
                Ok(n) => n,
                Err(e) => return Err(e),
            };
            Operation::Ldy(AddressingMode::Absolute(n, Index::NoIndex))
        },
        0xAD => {
            let n: u16 = match cursor.need_u16() {
                Ok(n) => n,
                Err(e) => return Err(e),
            };
            Operation::Lda(AddressingMode::Absolute(n, Index::NoIndex))
        },
        0xAE => {
            let n: u16 = match cursor.need_u16() {
                Ok(n) => n,
                Err(e) => return Err(e),
            };
            Operation::Ldx(AddressingMode::Absolute(n, Index::NoIndex))
        },
        _ => {
            return Err(EmuError::UnknownOpcode);
        },
    };
    Ok(Some(operation))
}

/// Decode the operand bytes of an opcode in [0xB0, 0xBF], the opcode
/// byte itself already consumed. `s0` is the stream from the opcode on.
#[verifier::rlimit(60)]
fn parse_xb<T: Cursor>(
    cursor: &mut T,
    operator: u8,
    Ghost(s0): Ghost<Seq<u8>>,
) -> (r: Result<Option<Operation>, EmuError>)
    requires
        1 <= old(cursor).pos() <= old(cursor).stream().len(),
        s0 == old(cursor).stream().skip(old(cursor).pos() - 1),
        s0.len() >= 1,
        s0[0] == operator,
        0xB0 <= operator < 0xc0,
    ensures
        final(cursor).stream() == old(cursor).stream(),
        old(cursor).pos() <= final(cursor).pos() <= old(cursor).stream().len(),
        r == spec_decode_xb(s0),
        r matches Ok(Some(op)) ==> op.wf() && final(cursor).pos() == old(cursor).pos()
            + operand_bytes_xb(operator),
        r == Err::<Option<Operation>, EmuError>(EmuError::UnknownOpcode) ==> final(cursor).pos()
            == old(cursor).pos(),
        r == Err::<Option<Operation>, EmuError>(EmuError::TruncatedOperand) ==> final(cursor).pos()
            == old(cursor).stream().len(),
{
    let operation = match operator {
        0xB0 => {
            let n: i8 = match cursor.need_i8() {
                Ok(n) => n,
                Err(e) => return Err(e),
            };
            Operation::Bcs(AddressingMode::Relative(n))
        },
        0xB1 => {
            let n: u8 = match cursor.need_u8() {
                Ok(n) => n,
                Err(e) => return Err(e),
            };
            Operation::Lda(AddressingMode::IndirectIndexed(n))
        },
        0xB4 => {
            let n: u8 = match cursor.need_u8() {
                Ok(n) => n,
                Err(e) => return Err(e),
            };
            Operation::Ldy(AddressingMode::ZeroPage(n, Index::X))
        },
        0xB5 => {
            let n: u8 = match cursor.need_u8() {
                Ok(n) => n,
                Err(e) => return Err(e),
            };
            Operation::Lda(AddressingMode::ZeroPage(n, Index::X))
        },
        0xB6 => {
            let n: u8 = match cursor.need_u8() {
                Ok(n) => n,
                Err(e) => return Err(e),
            };
            Operation::Ldx(AddressingMode::ZeroPage(n, Index::Y))
        },
        0xB8 => Operation::Clv,
        0xB9 => {
            let n: u16 = match cursor.need_u16() {
                Ok(n) => n,
                Err(e) => return Err(e),
            };
            Operation::Lda(AddressingMode::Absolute(n, Index::Y))
        },
        0xBA => Operation::Tsx,
        0xBC => {
            let n: u16 = match cursor.need_u16() {
                Ok(n) => n,
                Err(e) => return Err(e),
            };
            Operation::Ldy(AddressingMode::Absolute(n, Index::X))
        },
        0xBD => {
            let n: u16 = match cursor.need_u16() {
                Ok(n) => n,
                Err(e) => return Err(e),
            };
            Operation::Lda(AddressingMode::Absolute(n, Index::X))
        },
        0xBE => {
            let n: u16 = match cursor.need_u16() {
                Ok(n) => n,
                Err(e) => return Err(e),
            };
            Operation::Ldx(AddressingMode::Absolute(n, Index::Y))
        },
        _ => {
            return Err(EmuError::UnknownOpcode);
        },
    };
    Ok(Some(operation))
}

/// Decode the operand bytes of an opcode in [0xC0, 0xCF], the opcode
/// byte itself already consumed. `s0` is the stream from the opcode on.
#[verifier::rlimit(60)]
fn parse_xc<T: Cursor>(
    cursor: &mut T,
    operator: u8,
    Ghost(s0): Ghost<Seq<u8>>,
) -> (r: Result<Option<Operation>, EmuError>)
    requires
        1 <= old(cursor).pos() <= old(cursor).stream().len(),
        s0 == old(cursor).stream().skip(old(cursor).pos() - 1),
        s0.len() >= 1,
        s0[0] == operator,
        0xC0 <= operator < 0xd0,
    ensures
        final(cursor).stream() == old(cursor).stream(),
        old(cursor).pos() <= final(cursor).pos() <= old(cursor).stream().len(),
        r == spec_decode_xc(s0),
        r matches Ok(Some(op)) ==> op.wf() && final(cursor).pos() == old(cursor).pos()
            + operand_bytes_xc(operator),
        r == Err::<Option<Operation>, EmuError>(EmuError::UnknownOpcode) ==> final(cursor).pos()
            == old(cursor).pos(),
        r == Err::<Option<Operation>, EmuError>(EmuError::TruncatedOperand) ==> final(cursor).pos()
            == old(cursor).stream().len(),
{
    let operation = match operator {
        0xC0 => {
            let n: u8 = match cursor.need_u8() {
                Ok(n) => n,
                Err(e) => return Err(e),
            };
            Operation::Cpy(AddressingMode::Immediate(n))
        },
        0xC1 => {
            let n: u8 = match cursor.need_u8() {
                Ok(n) => n,
                Err(e) => return Err(e),
            };
            Operation::Cmp(AddressingMode::IndexedIndirect(n))
        },
        0xC4 => {
            let n: u8 = match cursor.need_u8() {
                Ok(n) => n,
                Err(e) => return Err(e),
            };
            Operation::Cpy(AddressingMode::ZeroPage(n, Index::NoIndex))
        },
        0xC5 => {
            let n: u8 = match cursor.need_u8() {
                Ok(n) => n,
                Err(e) => return Err(e),
            };
            Operation::Cmp(AddressingMode::ZeroPage(n, Index::NoIndex))
        },
        0xC6 => {
            let n: u8 = match cursor.need_u8() {
                Ok(n) => n,
                Err(e) => return Err(e),
            };
            Operation::Dec(AddressingMode::ZeroPage(n, Index::NoIndex))
        },
        0xC8 => Operation::Iny,
        0xC9 => {
            let n: u8 = match cursor.need_u8() {
                Ok(n) => n,
                Err(e) => return Err(e),
            };
            Operation::Cmp(AddressingMode::Immediate(n))
        },
        0xCA => Operation::Dex,
        0xCC => {
            let n: u16 = match cursor.need_u16() {
                Ok(n) => n,
                Err(e) => return Err(e),
            };
            Operation::Cpy(AddressingMode::Absolute(n, Index::NoIndex))
        },
        0xCD => {
            let n: u16 = match cursor.need_u16() {
                Ok(n) => n,
                Err(e) => return Err(e),
            };
            Operation::Cmp(AddressingMode::Absolute(n, Index::NoIndex))
        },
        0xCE => {
            let n: u16 = match cursor.need_u16() {
                Ok(n) => n,
                Err(e) => return Err(e),
            };
            Operation::Dec(AddressingMode::Absolute(n, Index::NoIndex))
        },
        _ => {
            return Err(EmuError::UnknownOpcode);
        },
    };
    Ok(Some(operation))
}

/// Decode the operand bytes of an opcode in [0xD0, 0xDF], the opcode
/// byte itself already consumed. `s0` is the stream from the opcode on.
#[verifier::rlimit(60)]
fn parse_xd<T: Cursor>(
    cursor: &mut T,
    operator: u8,
    Ghost(s0): Ghost<Seq<u8>>,
) -> (r: Result<Option<Operation>, EmuError>)
    requires
        1 <= old(cursor).pos() <= old(cursor).stream().len(),
        s0 == old(cursor).stream().skip(old(cursor).pos() - 1),
        s0.len() >= 1,
        s0[0] == operator,
        0xD0 <= operator < 0xe0,
    ensures
        final(cursor).stream() == old(cursor).stream(),
        old(cursor).pos() <= final(cursor).pos() <= old(cursor).stream().len(),
        r == spec_decode_xd(s0),
        r matches Ok(Some(op)) ==> op.wf() && final(cursor).pos() == old(cursor).pos()
            + operand_bytes_xd(operator),
        r == Err::<Option<Operation>, EmuError>(EmuError::UnknownOpcode) ==> final(cursor).pos()
            == old(cursor).pos(),
        r == Err::<Option<Operation>, EmuError>(EmuError::TruncatedOperand) ==> final(cursor).pos()
            == old(cursor).stream().len(),
{
    let operation = match operator {
        0xD0 => {
            let n: i8 = match cursor.need_i8() {
                Ok(n) => n,
                Err(e) => return Err(e),
            };
            Operation::Bne(AddressingMode::Relative(n))
        },
        0xD1 => {
            let n: u8 = match cursor.need_u8() {
                Ok(n) => n,
                Err(e) => return Err(e),
            };
            Operation::Cmp(AddressingMode::IndirectIndexed(n))
        },
        0xD5 => {
            let n: u8 = match cursor.need_u8() {
                Ok(n) => n,
                Err(e) => return Err(e),
            };
            Operation::Cmp(AddressingMode::ZeroPage(n, Index::X))
        },
        0xD6 => {
            let n: u8 = match cursor.need_u8() {
                Ok(n) => n,
                Err(e) => return Err(e),
            };
            Operation::Dec(AddressingMode::ZeroPage(n, Index::X))
        },
        0xD8 => Operation::Cld,
        0xD9 => {
            let n: u16 = match cursor.need_u16() {
                Ok(n) => n,
                Err(e) => return Err(e),
            };
            Operation::Cmp(AddressingMode::Absolute(n, Index::Y))
        },
        0xDD => {
            let n: u16 = match cursor.need_u16() {
                Ok(n) => n,
                Err(e) => return Err(e),
            };
            Operation::Cmp(AddressingMode::Absolute(n, Index::X))
        },
        0xDE => {
            let n: u16 = match cursor.need_u16() {
                Ok(n) => n,
                Err(e) => return Err(e),
            };
            Operation::Dec(AddressingMode::Absolute(n, Index::X))
        },
        _ => {
            return Err(EmuError::UnknownOpcode);
        },
    };
    Ok(Some(operation))
}

/// Decode the operand bytes of an opcode in [0xE0, 0xEF], the opcode
/// byte itself already consumed. `s0` is the stream from the opcode on.
#[verifier::rlimit(60)]
fn parse_xe<T: Cursor>(
    cursor: &mut T,
    operator: u8,
    Ghost(s0): Ghost<Seq<u8>>,
) -> (r: Result<Option<Operation>, EmuError>)
    requires
        1 <= old(cursor).pos() <= old(cursor).stream().len(),
        s0 == old(cursor).stream().skip(old(cursor).pos() - 1),
        s0.len() >= 1,
        s0[0] == operator,
        0xE0 <= operator < 0xf0,
    ensures
        final(cursor).stream() == old(cursor).stream(),
        old(cursor).pos() <= final(cursor).pos() <= old(cursor).stream().len(),
        r == spec_decode_xe(s0),
        r matches Ok(Some(op)) ==> op.wf() && final(cursor).pos() == old(cursor).pos()
            + operand_bytes_xe(operator),
        r == Err::<Option<Operation>, EmuError>(EmuError::UnknownOpcode) ==> final(cursor).pos()
            == old(cursor).pos(),
        r == Err::<Option<Operation>, EmuError>(EmuError::TruncatedOperand) ==> final(cursor).pos()
            == old(cursor).stream().len(),
{
    let operation = match operator {
        0xE0 => {
            let n: u8 = match cursor.need_u8() {
                Ok(n) => n,
                Err(e) => return Err(e),
            };
            Operation::Cpx(AddressingMode::Immediate(n))
        },
        0xE1 => {
            let n: u8 = match cursor.need_u8() {
                Ok(n) => n,
                Err(e) => return Err(e),
            };
            Operation::Sbc(AddressingMode::IndexedIndirect(n))
        },
        0xE4 => {
            let n: u8 = match cursor.need_u8() {
                Ok(n) => n,
                Err(e) => return Err(e),
            };
            Operation::Cpx(AddressingMode::ZeroPage(n, Index::NoIndex))
        },
        0xE5 => {
            let n: u8 = match cursor.need_u8() {
                Ok(n) => n,
                Err(e) => return Err(e),
            };
            Operation::Sbc(AddressingMode::ZeroPage(n, Index::NoIndex))
        },
        0xE6 => {
            let n: u8 = match cursor.need_u8() {
                Ok(n) => n,
                Err(e) => return Err(e),
            };
            Operation::Inc(AddressingMode::ZeroPage(n, Index::NoIndex))
        },
        0xE8 => Operation::Inx,
        0xE9 => {
            let n: u8 = match cursor.need_u8() {
                Ok(n) => n,
                Err(e) => return Err(e),
            };
            Operation::Sbc(AddressingMode::Immediate(n))
        },
        0xEA => Operation::Nop,
        0xEC => {
            let n: u16 = match cursor.need_u16() {
                Ok(n) => n,
                Err(e) => return Err(e),
            };
            Operation::Cpx(AddressingMode::Absolute(n, Index::NoIndex))
        },
        0xED => {
            let n: u16 = match cursor.need_u16() {
                Ok(n) => n,
                Err(e) => return Err(e),
            };
            Operation::Sbc(AddressingMode::Absolute(n, Index::NoIndex))
        },
        0xEE => {
            let n: u16 = match cursor.need_u16() {
                Ok(n) => n,
                Err(e) => return Err(e),
            };
            Operation::Inc(AddressingMode::Absolute(n, Index::NoIndex))
        },
        _ => {
            return Err(EmuError::UnknownOpcode);
        },
    };
    Ok(Some(operation))
}

/// Decode the operand bytes of an opcode in [0xF0, 0xFF], the opcode
/// byte itself already consumed. `s0` is the stream from the opcode on.
#[verifier::rlimit(60)]
fn parse_xf<T: Cursor>(
    cursor: &mut T,
    operator: u8,
    Ghost(s0): Ghost<Seq<u8>>,
) -> (r: Result<Option<Operation>, EmuError>)
    requires
        1 <= old(cursor).pos() <= old(cursor).stream().len(),
        s0 == old(cursor).stream().skip(old(cursor).pos() - 1),
        s0.len() >= 1,
        s0[0] == operator,
        0xF0 <= operator < 0x100,
    ensures
        final(cursor).stream() == old(cursor).stream(),
        old(cursor).pos() <= final(cursor).pos() <= old(cursor).stream().len(),
        r == spec_decode_xf(s0),
        r matches Ok(Some(op)) ==> op.wf() && final(cursor).pos() == old(cursor).pos()
            + operand_bytes_xf(operator),
        r == Err::<Option<Operation>, EmuError>(EmuError::UnknownOpcode) ==> final(cursor).pos()
            == old(cursor).pos(),
        r == Err::<Option<Operation>, EmuError>(EmuError::TruncatedOperand) ==> final(cursor).pos()
            == old(cursor).stream().len(),
{
    let operation = match operator {
        0xF0 => {
            let n: i8 = match cursor.need_i8() {
                Ok(n) => n,
                Err(e) => return Err(e),
            };
            Operation::Beq(AddressingMode::Relative(n))
        },
        0xF1 => {
            let n: u8 = match cursor.need_u8() {
                Ok(n) => n,
                Err(e) => return Err(e),
            };
            Operation::Sbc(AddressingMode::IndirectIndexed(n))
        },
        0xF5 => {
            let n: u8 = match cursor.need_u8() {
                Ok(n) => n,
                Err(e) => return Err(e),
            };
            Operation::Sbc(AddressingMode::ZeroPage(n, Index::X))
        },
        0xF6 => {
            let n: u8 = match cursor.need_u8() {
                Ok(n) => n,
                Err(e) => return Err(e),
            };
            Operation::Inc(AddressingMode::ZeroPage(n, Index::X))
        },
        0xF8 => Operation::Sed,
        0xF9 => {
            let n: u16 = match cursor.need_u16() {
                Ok(n) => n,
                Err(e) => return Err(e),
            };
            Operation::Sbc(AddressingMode::Absolute(n, Index::Y))
        },
        0xFD => {
            let n: u16 = match cursor.need_u16() {
                Ok(n) => n,
                Err(e) => return Err(e),
            };
            Operation::Sbc(AddressingMode::Absolute(n, Index::X))
        },
        0xFE => {
            let n: u16 = match cursor.need_u16() {
                Ok(n) => n,
                Err(e) => return Err(e),
            };
            Operation::Inc(AddressingMode::Absolute(n, Index::X))
        },
        0xFF => Operation::Halt,
        _ => {
            return Err(EmuError::UnknownOpcode);
        },
    };
    Ok(Some(operation))
}

/// Consume one instruction from the cursor: the opcode byte, looked up in
/// the fixed dispatch table, and exactly the operand bytes its addressing
/// mode requires. Decoding an exhausted stream is a clean end, not an error.
pub fn parse_opcode<T: Cursor>(cursor: &mut T) -> (r: Result<Option<Operation>, EmuError>)
    requires
        0 <= old(cursor).pos() <= old(cursor).stream().len(),
    ensures
        final(cursor).stream() == old(cursor).stream(),
        old(cursor).pos() <= final(cursor).pos() <= old(cursor).stream().len(),
        r == spec_decode(old(cursor).stream().skip(old(cursor).pos())),
        r matches Ok(Some(op)) ==> op.wf() && final(cursor).pos() == old(cursor).pos() + 1
            + operand_bytes(old(cursor).stream()[old(cursor).pos()]),
        r == Ok::<Option<Operation>, EmuError>(Option::<Operation>::None) ==> final(cursor).pos()
            == old(cursor).pos(),
        r == Err::<Option<Operation>, EmuError>(EmuError::UnknownOpcode) ==> final(cursor).pos()
            == old(cursor).pos() + 1,
        r == Err::<Option<Operation>, EmuError>(EmuError::TruncatedOperand) ==> final(cursor).pos()
            == old(cursor).stream().len(),
{
    let ghost start = old(cursor).pos();
    let operator = match cursor.next_byte() {
        Some(operator) => operator,
        None => {
            return Ok(None);
        },
    };
    let ghost s0 = old(cursor).stream().skip(start);
    proof {
        assert(s0.len() == old(cursor).stream().len() - start);
        assert(s0[0] == operator);
    }
    if operator < 0x10 {
        parse_x0(cursor, operator, Ghost(s0))
    } else if operator < 0x20 {
        parse_x1(cursor, operator, Ghost(s0))
    } else if operator < 0x30 {
        parse_x2(cursor, operator, Ghost(s0))
    } else if operator < 0x40 {
        parse_x3(cursor, operator, Ghost(s0))
    } else if operator < 0x50 {
        parse_x4(cursor, operator, Ghost(s0))
    } else if operator < 0x60 {
        parse_x5(cursor, operator, Ghost(s0))
    } else if operator < 0x70 {
        parse_x6(cursor, operator, Ghost(s0))
    } else if operator < 0x80 {
        parse_x7(cursor, operator, Ghost(s0))
    } else if operator < 0x90 {
        parse_x8(cursor, operator, Ghost(s0))
    } else if operator < 0xa0 {
        parse_x9(cursor, operator, Ghost(s0))
    } else if operator < 0xb0 {
        parse_xa(cursor, operator, Ghost(s0))
    } else if operator < 0xc0 {
        parse_xb(cursor, operator, Ghost(s0))
    } else if operator < 0xd0 {
        parse_xc(cursor, operator, Ghost(s0))
    } else if operator < 0xe0 {
        parse_xd(cursor, operator, Ghost(s0))
    } else if operator < 0xf0 {
        parse_xe(cursor, operator, Ghost(s0))
    } else {
        parse_xf(cursor, operator, Ghost(s0))
    }
}

} // verus!
