use vstd::prelude::*;

use crate::flags::Flags;
use crate::instr::{AddressingMode, Operation};
use crate::machine::{EmuError, MState, Machine, Operand, Status, IRQ_VECTOR, MEMORY_SIZE};

verus! {

impl MState {
    /// The same state with the stack pointer replaced.
    pub open spec fn with_sp(self, v: u8) -> MState {
        MState { sp: v, ..self }
    }

    /// ADC: accumulator + operand + carry. Carry out reflects the full sum
    /// exceeding one byte; signed overflow holds when the result's sign
    /// differs from both operands' signs.
    pub open spec fn apply_adc(self, v: u8) -> MState {
        let c: int = if self.flags.carry {
            1
        } else {
            0
        };
        let total: int = self.acc + v + c;
        let result: u8 = (total % 256) as u8;
        let overflow = ((result >= 0x80) != (v >= 0x80)) && ((result >= 0x80) != (self.acc
            >= 0x80));
        self.with_acc(result).with_carry(total >= 256).with_overflow(overflow)
    }

    /// SBC: accumulator - operand - (1 - carry). Carry is cleared exactly
    /// when the full difference borrows; signed overflow holds when the
    /// result's sign differs from the accumulator's while matching the
    /// operand's.
    pub open spec fn apply_sbc(self, v: u8) -> MState {
        let ic: int = if self.flags.carry {
            0
        } else {
            1
        };
        let total: int = self.acc - v - ic;
        let result: u8 = ((total + 256) % 256) as u8;
        let overflow = ((result >= 0x80) != (self.acc >= 0x80)) && ((result >= 0x80) == (v
            >= 0x80));
        self.with_acc(result).with_carry(total >= 0).with_overflow(overflow)
    }

    pub open spec fn apply_and(self, v: u8) -> MState {
        self.with_acc(self.acc & v)
    }

    pub open spec fn apply_ora(self, v: u8) -> MState {
        self.with_acc(self.acc | v)
    }

    pub open spec fn apply_eor(self, v: u8) -> MState {
        self.with_acc(self.acc ^ v)
    }

    /// CMP/CPX/CPY against register value `reg`: carry iff reg >= operand,
    /// zero iff equal, negative from the sign of the wrapping difference.
    pub open spec fn apply_compare(self, reg: u8, v: u8) -> MState {
        let diff: u8 = ((reg - v + 256) % 256) as u8;
        self.with_carry(reg >= v).with_zero(reg == v).with_negative(diff >= 0x80)
    }

    /// BIT: zero from accumulator AND operand, negative and overflow copied
    /// from the operand's bits 7 and 6.
    pub open spec fn apply_bit(self, v: u8) -> MState {
        self.with_zero(self.acc & v == 0).with_negative(v >= 0x80).with_overflow(
            v & 0x40 == 0x40,
        )
    }

    /// ASL on the accumulator: carry takes the bit shifted out.
    pub open spec fn apply_asl_acc(self) -> MState {
        let new = ((self.acc * 2) % 256) as u8;
        self.with_acc(new).with_carry(self.acc >= 0x80)
    }

    /// ASL through memory: read-modify-write with zero/negative from the new
    /// byte.
    pub open spec fn apply_asl_mem(self, ad: int, v: u8) -> MState {
        let new = ((v * 2) % 256) as u8;
        let s1 = self.with_carry(v >= 0x80).written(ad, new);
        s1.with_flags(MState::zn(s1.flags, new))
    }

    /// LSR on the accumulator: carry takes the bit shifted out.
    pub open spec fn apply_lsr_acc(self) -> MState {
        self.with_carry(self.acc % 2 == 1).with_acc(self.acc / 2)
    }

    pub open spec fn apply_lsr_mem(self, ad: int, v: u8) -> MState {
        let new = v / 2;
        let s1 = self.with_carry(v % 2 == 1).written(ad, new);
        s1.with_flags(MState::zn(s1.flags, new))
    }

    /// ROL on the accumulator: the old carry feeds the vacated low bit.
    pub open spec fn apply_rol_acc(self) -> MState {
        let c: int = if self.flags.carry {
            1
        } else {
            0
        };
        let new = ((self.acc * 2 + c) % 256) as u8;
        self.with_carry(self.acc >= 0x80).with_acc(new)
    }

    pub open spec fn apply_rol_mem(self, ad: int, v: u8) -> MState {
        let c: int = if self.flags.carry {
            1
        } else {
            0
        };
        let new = ((v * 2 + c) % 256) as u8;
        let s1 = self.with_carry(v >= 0x80).written(ad, new);
        s1.with_flags(MState::zn(s1.flags, new))
    }

    /// ROR on the accumulator: the old carry feeds the vacated high bit.
    pub open spec fn apply_ror_acc(self) -> MState {
        let hi: u8 = if self.flags.carry {
            0x80
        } else {
            0
        };
        let new = (self.acc / 2 + hi) as u8;
        self.with_carry(self.acc % 2 == 1).with_acc(new)
    }

    pub open spec fn apply_ror_mem(self, ad: int, v: u8) -> MState {
        let hi: u8 = if self.flags.carry {
            0x80
        } else {
            0
        };
        let new = (v / 2 + hi) as u8;
        let s1 = self.with_carry(v % 2 == 1).written(ad, new);
        s1.with_flags(MState::zn(s1.flags, new))
    }

    /// INC: wrapping increment of a memory byte, zero/negative from the new
    /// value.
    pub open spec fn apply_inc(self, ad: int, v: u8) -> MState {
        let new = (((v + 1) % 256)) as u8;
        let s1 = self.written(ad, new);
        s1.with_flags(MState::zn(s1.flags, new))
    }

    /// DEC: wrapping decrement of a memory byte.
    pub open spec fn apply_dec(self, ad: int, v: u8) -> MState {
        let new = (((v + 255) % 256)) as u8;
        let s1 = self.written(ad, new);
        s1.with_flags(MState::zn(s1.flags, new))
    }

    /// The BRK jump target stored at the interrupt vector (little-endian).
    pub open spec fn irq_target(self) -> int {
        self.memory[IRQ_VECTOR as int] + 256 * self.memory[IRQ_VECTOR + 1]
    }
}

/// Post-state relation of the instructions that read an operand value and
/// apply a pure register/flag transform `f`, committing the program counter
/// afterwards. On failure the machine is untouched.
pub open spec fn value_op_post(
    pre: MState,
    post: MState,
    mode: AddressingMode,
    r: Result<Status, EmuError>,
    f: spec_fn(MState, u8) -> MState,
) -> bool {
    &&& (r matches Ok(st) ==> st is Cont && (exists|v: u8|
        #[trigger] pre.value_ok(mode, v) && post == f(pre, v).advanced()))
    &&& (r matches Err(e) ==> post == pre && pre.value_fails(mode, e))
}

/// Post-state relation of the read-modify-write instructions on memory.
pub open spec fn mem_rmw_post(
    pre: MState,
    post: MState,
    mode: AddressingMode,
    r: Result<Status, EmuError>,
    f: spec_fn(MState, int, u8) -> MState,
) -> bool {
    &&& (r matches Ok(st) ==> st is Cont && (exists|ad: int, v: u8|
        #![trigger pre.addr_ok(mode, ad), pre.read_ok(ad, v)]
        pre.addr_ok(mode, ad) && 0 <= ad < MEMORY_SIZE && pre.read_ok(ad, v) && post == f(
            pre,
            ad,
            v,
        ).advanced()))
    &&& (r matches Err(e) ==> post == pre && pre.value_fails(mode, e))
}

/// Post-state relation of the shift and rotate instructions: on the
/// accumulator a pure transform, through memory a read-modify-write.
pub open spec fn rmw_op_post(
    pre: MState,
    post: MState,
    mode: AddressingMode,
    r: Result<Status, EmuError>,
    facc: spec_fn(MState) -> MState,
    fmem: spec_fn(MState, int, u8) -> MState,
) -> bool {
    if mode is Accumulator {
        r == Ok::<Status, EmuError>(Status::Cont) && post == facc(pre).advanced()
    } else {
        mem_rmw_post(pre, post, mode, r, fmem)
    }
}

/// Post-state relation of the store instructions: the byte `v` lands at the
/// resolved address.
pub open spec fn store_op_post(
    pre: MState,
    post: MState,
    mode: AddressingMode,
    r: Result<Status, EmuError>,
    v: u8,
) -> bool {
    &&& (r matches Ok(st) ==> st is Cont && (exists|ad: int|
        #[trigger] pre.addr_ok(mode, ad) && 0 <= ad < MEMORY_SIZE && post == pre.written(
            ad,
            v,
        ).advanced()))
    &&& (r matches Err(e) ==> post == pre && pre.value_fails(mode, e))
}

/// How a taken branch or a jump can fail: the mode fails to resolve, or the
/// target lies outside memory.
pub open spec fn branch_fails(pre: MState, mode: AddressingMode, e: EmuError) -> bool {
    ||| pre.resolve_fails(mode) == Some(e)
    ||| (e == EmuError::InvalidTarget && (exists|ad: int|
        #[trigger] pre.addr_ok(mode, ad) && ad >= MEMORY_SIZE))
}

/// Post-state relation of a conditional branch: not taken falls through via
/// an advance; taken transfers control to the resolved address.
pub open spec fn branch_post(
    pre: MState,
    post: MState,
    mode: AddressingMode,
    r: Result<Status, EmuError>,
    taken: bool,
) -> bool {
    if !taken {
        r == Ok::<Status, EmuError>(Status::Cont) && post == pre.advanced()
    } else {
        &&& (r matches Ok(st) ==> st is Cont && (exists|ad: int|
            #[trigger] pre.addr_ok(mode, ad) && 0 <= ad < MEMORY_SIZE && post == pre.jumped(ad)))
        &&& (r matches Err(e) ==> post == pre && branch_fails(pre, mode, e))
    }
}

/// Post-state relation of JMP: an unconditional control transfer.
pub open spec fn jmp_post(
    pre: MState,
    post: MState,
    mode: AddressingMode,
    r: Result<Status, EmuError>,
) -> bool {
    branch_post(pre, post, mode, r, true)
}

/// Post-state relation of JSR: push the return counter, jump to the target.
/// A partial push (one byte fitting) leaves that byte behind.
pub open spec fn jsr_post(
    pre: MState,
    post: MState,
    mode: AddressingMode,
    r: Result<Status, EmuError>,
) -> bool {
    &&& (r matches Ok(st) ==> st is Cont && pre.sp >= 2 && (exists|ad: int|
        #[trigger] pre.addr_ok(mode, ad) && 0 <= ad < MEMORY_SIZE && post == pre.pushed16(
            pre.pc as u16,
        ).jumped(ad)))
    &&& (r matches Err(e) ==> {
        ||| (pre.resolve_fails(mode) == Some(e) && post == pre)
        ||| (pre.resolve_fails(mode) is None && pre.sp == 0 && e == EmuError::StackOverflow && post
            == pre)
        ||| (pre.resolve_fails(mode) is None && pre.sp == 1 && e == EmuError::StackOverflow && post
            == pre.pushed((pre.pc as u16 / 256) as u8))
        ||| (pre.sp >= 2 && e == EmuError::InvalidTarget && post == pre.pushed16(pre.pc as u16) && (
        exists|ad: int| #[trigger] pre.addr_ok(mode, ad) && ad >= MEMORY_SIZE))
    })
}

/// Post-state relation of BRK: push the program counter, push the status
/// byte with BREAK forced on, set interrupt-disable, and jump through the
/// interrupt vector. Failed pushes leave the partial stack behind.
pub open spec fn brk_post(pre: MState, post: MState, r: Result<Status, EmuError>) -> bool {
    let s1 = pre.pushed16(pre.pc as u16);
    let s2 = s1.pushed(s1.flags.spec_bits() | 0x10);
    let s3 = s2.with_interrupt_disable(true);
    let target = s3.irq_target();
    &&& (pre.sp == 0 ==> r == Err::<Status, EmuError>(EmuError::StackOverflow) && post == pre)
    &&& (pre.sp == 1 ==> r == Err::<Status, EmuError>(EmuError::StackOverflow) && post
        == pre.pushed((pre.pc as u16 / 256) as u8))
    &&& (pre.sp == 2 ==> r == Err::<Status, EmuError>(EmuError::StackOverflow) && post == s1)
    &&& (pre.sp >= 3 ==> {
        if target < MEMORY_SIZE {
            r == Ok::<Status, EmuError>(Status::Cont) && post == s3.jumped(target)
        } else {
            r == Err::<Status, EmuError>(EmuError::InvalidTarget) && post == s3
        }
    })
}

/// Post-state relation of RTS: pop a 16-bit counter and jump there.
pub open spec fn rts_post(pre: MState, post: MState, r: Result<Status, EmuError>) -> bool {
    &&& (pre.sp <= 0xfd && pre.pop16_value() < MEMORY_SIZE ==> r == Ok::<Status, EmuError>(
        Status::Cont,
    ) && post == pre.popped().popped().jumped(pre.pop16_value() as int))
    &&& (pre.sp <= 0xfd && pre.pop16_value() >= MEMORY_SIZE ==> r == Err::<Status, EmuError>(
        EmuError::InvalidTarget,
    ) && post == pre.popped().popped())
    &&& (pre.sp == 0xfe ==> r == Err::<Status, EmuError>(EmuError::StackUnderflow) && post
        == pre.popped())
    &&& (pre.sp == 0xff ==> r == Err::<Status, EmuError>(EmuError::StackUnderflow) && post == pre)
}

/// Post-state relation of RTI: pop the status byte, pop a 16-bit counter
/// and jump there.
pub open spec fn rti_post(pre: MState, post: MState, r: Result<Status, EmuError>) -> bool {
    let s1 = pre.popped().with_flags(Flags::spec_from_bits(pre.pop_value()));
    &&& (pre.sp == 0xff ==> r == Err::<Status, EmuError>(EmuError::StackUnderflow) && post == pre)
    &&& (pre.sp < 0xff ==> rts_post(s1, post, r))
}

/// Post-state relation of the instructions without an operand: a pure
/// transform followed by an advance.
pub open spec fn simple_op_post(
    pre: MState,
    post: MState,
    r: Result<Status, EmuError>,
    f: spec_fn(MState) -> MState,
) -> bool {
    r == Ok::<Status, EmuError>(Status::Cont) && post == f(pre).advanced()
}

/// Post-state relation of PHA and PHP, pushing the byte `v`.
pub open spec fn push_op_post(
    pre: MState,
    post: MState,
    r: Result<Status, EmuError>,
    v: u8,
) -> bool {
    &&& (pre.sp > 0 ==> r == Ok::<Status, EmuError>(Status::Cont) && post == pre.pushed(
        v,
    ).advanced())
    &&& (pre.sp == 0 ==> r == Err::<Status, EmuError>(EmuError::StackOverflow) && post == pre)
}

/// Post-state relation of PLA: pop into the accumulator, updating zero and
/// negative.
pub open spec fn pla_post(pre: MState, post: MState, r: Result<Status, EmuError>) -> bool {
    &&& (pre.sp < 0xff ==> r == Ok::<Status, EmuError>(Status::Cont) && post == pre.popped(
    ).with_acc(pre.pop_value()).advanced())
    &&& (pre.sp == 0xff ==> r == Err::<Status, EmuError>(EmuError::StackUnderflow) && post == pre)
}

/// Post-state relation of PLP: pop into the status flags.
pub open spec fn plp_post(pre: MState, post: MState, r: Result<Status, EmuError>) -> bool {
    &&& (pre.sp < 0xff ==> r == Ok::<Status, EmuError>(Status::Cont) && post == pre.popped(
    ).with_flags(Flags::spec_from_bits(pre.pop_value())).advanced())
    &&& (pre.sp == 0xff ==> r == Err::<Status, EmuError>(EmuError::StackUnderflow) && post == pre)
}

/// What `step` does for each instruction: the one transition of the
/// execution engine, as a relation because operand reads may touch the
/// reserved random address.
pub open spec fn step_post(
    pre: MState,
    post: MState,
    op: Operation,
    r: Result<Status, EmuError>,
) -> bool {
    match op {
        Operation::Adc(m) => value_op_post(pre, post, m, r, (|s: MState, v: u8| s.apply_adc(v))),
        Operation::Sbc(m) => value_op_post(pre, post, m, r, (|s: MState, v: u8| s.apply_sbc(v))),
        Operation::And(m) => value_op_post(pre, post, m, r, (|s: MState, v: u8| s.apply_and(v))),
        Operation::Ora(m) => value_op_post(pre, post, m, r, (|s: MState, v: u8| s.apply_ora(v))),
        Operation::Eor(m) => value_op_post(pre, post, m, r, (|s: MState, v: u8| s.apply_eor(v))),
        Operation::Lda(m) => value_op_post(pre, post, m, r, (|s: MState, v: u8| s.with_acc(v))),
        Operation::Ldx(m) => value_op_post(pre, post, m, r, (|s: MState, v: u8| s.with_x(v))),
        Operation::Ldy(m) => value_op_post(pre, post, m, r, (|s: MState, v: u8| s.with_y(v))),
        Operation::Bit(m) => value_op_post(pre, post, m, r, (|s: MState, v: u8| s.apply_bit(v))),
        Operation::Cmp(m) => value_op_post(
            pre,
            post,
            m,
            r,
            (|s: MState, v: u8| s.apply_compare(s.acc, v)),
        ),
        Operation::Cpx(m) => value_op_post(
            pre,
            post,
            m,
            r,
            (|s: MState, v: u8| s.apply_compare(s.x, v)),
        ),
        Operation::Cpy(m) => value_op_post(
            pre,
            post,
            m,
            r,
            (|s: MState, v: u8| s.apply_compare(s.y, v)),
        ),
        Operation::Asl(m) => rmw_op_post(
            pre,
            post,
            m,
            r,
            (|s: MState| s.apply_asl_acc()),
            (|s: MState, ad: int, v: u8| s.apply_asl_mem(ad, v)),
        ),
        Operation::Lsr(m) => rmw_op_post(
            pre,
            post,
            m,
            r,
            (|s: MState| s.apply_lsr_acc()),
            (|s: MState, ad: int, v: u8| s.apply_lsr_mem(ad, v)),
        ),
        Operation::Rol(m) => rmw_op_post(
            pre,
            post,
            m,
            r,
            (|s: MState| s.apply_rol_acc()),
            (|s: MState, ad: int, v: u8| s.apply_rol_mem(ad, v)),
        ),
        Operation::Ror(m) => rmw_op_post(
            pre,
            post,
            m,
            r,
            (|s: MState| s.apply_ror_acc()),
            (|s: MState, ad: int, v: u8| s.apply_ror_mem(ad, v)),
        ),
        Operation::Inc(m) => mem_rmw_post(
            pre,
            post,
            m,
            r,
            (|s: MState, ad: int, v: u8| s.apply_inc(ad, v)),
        ),
        Operation::Dec(m) => mem_rmw_post(
            pre,
            post,
            m,
            r,
            (|s: MState, ad: int, v: u8| s.apply_dec(ad, v)),
        ),
        Operation::Sta(m) => store_op_post(pre, post, m, r, pre.acc),
        Operation::Stx(m) => store_op_post(pre, post, m, r, pre.x),
        Operation::Sty(m) => store_op_post(pre, post, m, r, pre.y),
        Operation::Jmp(m) => jmp_post(pre, post, m, r),
        Operation::Jsr(m) => jsr_post(pre, post, m, r),
        Operation::Bpl(m) => branch_post(pre, post, m, r, !pre.flags.negative),
        Operation::Bmi(m) => branch_post(pre, post, m, r, pre.flags.negative),
        Operation::Bvc(m) => branch_post(pre, post, m, r, !pre.flags.overflow),
        Operation::Bvs(m) => branch_post(pre, post, m, r, pre.flags.overflow),
        Operation::Bcc(m) => branch_post(pre, post, m, r, !pre.flags.carry),
        Operation::Bcs(m) => branch_post(pre, post, m, r, pre.flags.carry),
        Operation::Bne(m) => branch_post(pre, post, m, r, !pre.flags.zero),
        Operation::Beq(m) => branch_post(pre, post, m, r, pre.flags.zero),
        Operation::Brk => brk_post(pre, post, r),
        Operation::Rti => rti_post(pre, post, r),
        Operation::Rts => rts_post(pre, post, r),
        Operation::Clc => simple_op_post(pre, post, r, (|s: MState| s.with_carry(false))),
        Operation::Sec => simple_op_post(pre, post, r, (|s: MState| s.with_carry(true))),
        Operation::Cli => simple_op_post(
            pre,
            post,
            r,
            (|s: MState| s.with_interrupt_disable(false)),
        ),
        Operation::Sei => simple_op_post(
            pre,
            post,
            r,
            (|s: MState| s.with_interrupt_disable(true)),
        ),
        Operation::Clv => simple_op_post(pre, post, r, (|s: MState| s.with_overflow(false))),
        Operation::Cld => simple_op_post(pre, post, r, (|s: MState| s.with_decimal(false))),
        Operation::Sed => simple_op_post(pre, post, r, (|s: MState| s.with_decimal(true))),
        Operation::Nop => simple_op_post(pre, post, r, (|s: MState| s)),
        Operation::Tax => simple_op_post(pre, post, r, (|s: MState| s.with_x(s.acc))),
        Operation::Txa => simple_op_post(pre, post, r, (|s: MState| s.with_acc(s.x))),
        Operation::Tay => simple_op_post(pre, post, r, (|s: MState| s.with_y(s.acc))),
        Operation::Tya => simple_op_post(pre, post, r, (|s: MState| s.with_acc(s.y))),
        Operation::Tsx => simple_op_post(pre, post, r, (|s: MState| s.with_x(s.sp))),
        Operation::Txs => simple_op_post(pre, post, r, (|s: MState| s.with_sp(s.x))),
        Operation::Dex => simple_op_post(
            pre,
            post,
            r,
            (|s: MState| s.with_x((((s.x + 255) % 256)) as u8)),
        ),
        Operation::Inx => simple_op_post(
            pre,
            post,
            r,
            (|s: MState| s.with_x((((s.x + 1) % 256)) as u8)),
        ),
        Operation::Dey => simple_op_post(
            pre,
            post,
            r,
            (|s: MState| s.with_y((((s.y + 255) % 256)) as u8)),
        ),
        Operation::Iny => simple_op_post(
            pre,
            post,
            r,
            (|s: MState| s.with_y((((s.y + 1) % 256)) as u8)),
        ),
        Operation::Pha => push_op_post(pre, post, r, pre.acc),
        Operation::Php => push_op_post(pre, post, r, pre.flags.spec_bits() | 0x10),
        Operation::Pla => pla_post(pre, post, r),
        Operation::Plp => plp_post(pre, post, r),
        Operation::Halt => r == Ok::<Status, EmuError>(Status::Halt) && post == pre,
    }
}

impl Machine {
    /// ADC: add the operand and the carry bit to the accumulator.
    fn op_adc(&mut self, mode: AddressingMode) -> (r: Result<Status, EmuError>)
        requires
            old(self)@.wf(),
            mode.reads_value(),
        ensures
            final(self)@.wf(),
            value_op_post(old(self)@, final(self)@, mode, r, (|s: MState, v: u8| s.apply_adc(v))),
    {
        let v = match self.get_operand_value(mode) {
            Ok(v) => v,
            Err(e) => return Err(e),
        };
        let acc = self.acc;
        let carry: u16 = if self.is_carry() {
            1
        } else {
            0
        };
        let total: u16 = acc as u16 + v as u16 + carry;
        let result: u8 = (total % 256) as u8;
        self.set_acc(result);
        if total >= 256 {
            self.set_carry();
        } else {
            self.cls_carry();
        }
        let rs = crate::sign_bit(result);
        if rs != crate::sign_bit(v) && rs != crate::sign_bit(acc) {
            self.set_overflow();
        } else {
            self.cls_overflow();
        }
        self.advance();
        Ok(Status::Cont)
    }

    /// SBC: subtract the operand and the inverted carry bit.
    fn op_sbc(&mut self, mode: AddressingMode) -> (r: Result<Status, EmuError>)
        requires
            old(self)@.wf(),
            mode.reads_value(),
        ensures
            final(self)@.wf(),
            value_op_post(old(self)@, final(self)@, mode, r, (|s: MState, v: u8| s.apply_sbc(v))),
    {
        let v = match self.get_operand_value(mode) {
            Ok(v) => v,
            Err(e) => return Err(e),
        };
        let acc = self.acc;
        let inv_carry: u16 = if self.is_carry() {
            0
        } else {
            1
        };
        let biased: u16 = 256 + acc as u16 - v as u16 - inv_carry;
        let result: u8 = (biased % 256) as u8;
        self.set_acc(result);
        if biased >= 256 {
            self.set_carry();
        } else {
            self.cls_carry();
        }
        let rs = crate::sign_bit(result);
        if rs != crate::sign_bit(acc) && rs == crate::sign_bit(v) {
            self.set_overflow();
        } else {
            self.cls_overflow();
        }
        self.advance();
        Ok(Status::Cont)
    }

    /// AND: bitwise and into the accumulator.
    fn op_and(&mut self, mode: AddressingMode) -> (r: Result<Status, EmuError>)
        requires
            old(self)@.wf(),
            mode.reads_value(),
        ensures
            final(self)@.wf(),
            value_op_post(old(self)@, final(self)@, mode, r, (|s: MState, v: u8| s.apply_and(v))),
    {
        let v = match self.get_operand_value(mode) {
            Ok(v) => v,
            Err(e) => return Err(e),
        };
        self.set_acc(self.acc & v);
        self.advance();
        Ok(Status::Cont)
    }

    /// ORA: bitwise or into the accumulator.
    fn op_ora(&mut self, mode: AddressingMode) -> (r: Result<Status, EmuError>)
        requires
            old(self)@.wf(),
            mode.reads_value(),
        ensures
            final(self)@.wf(),
            value_op_post(old(self)@, final(self)@, mode, r, (|s: MState, v: u8| s.apply_ora(v))),
    {
        let v = match self.get_operand_value(mode) {
            Ok(v) => v,
            Err(e) => return Err(e),
        };
        self.set_acc(self.acc | v);
        self.advance();
        Ok(Status::Cont)
    }

    /// EOR: bitwise exclusive or into the accumulator.
    fn op_eor(&mut self, mode: AddressingMode) -> (r: Result<Status, EmuError>)
        requires
            old(self)@.wf(),
            mode.reads_value(),
        ensures
            final(self)@.wf(),
            value_op_post(old(self)@, final(self)@, mode, r, (|s: MState, v: u8| s.apply_eor(v))),
    {
        let v = match self.get_operand_value(mode) {
            Ok(v) => v,
            Err(e) => return Err(e),
        };
        self.set_acc(self.acc ^ v);
        self.advance();
        Ok(Status::Cont)
    }

    /// LDA: load the operand into the accumulator.
    fn op_lda(&mut self, mode: AddressingMode) -> (r: Result<Status, EmuError>)
        requires
            old(self)@.wf(),
            mode.reads_value(),
        ensures
            final(self)@.wf(),
            value_op_post(old(self)@, final(self)@, mode, r, (|s: MState, v: u8| s.with_acc(v))),
    {
        let v = match self.get_operand_value(mode) {
            Ok(v) => v,
            Err(e) => return Err(e),
        };
        self.set_acc(v);
        self.advance();
        Ok(Status::Cont)
    }

    /// LDX: load the operand into X.
    fn op_ldx(&mut self, mode: AddressingMode) -> (r: Result<Status, EmuError>)
        requires
            old(self)@.wf(),
            mode.reads_value(),
        ensures
            final(self)@.wf(),
            value_op_post(old(self)@, final(self)@, mode, r, (|s: MState, v: u8| s.with_x(v))),
    {
        let v = match self.get_operand_value(mode) {
            Ok(v) => v,
            Err(e) => return Err(e),
        };
        self.set_x(v);
        self.advance();
        Ok(Status::Cont)
    }

    /// LDY: load the operand into Y.
    fn op_ldy(&mut self, mode: AddressingMode) -> (r: Result<Status, EmuError>)
        requires
            old(self)@.wf(),
            mode.reads_value(),
        ensures
            final(self)@.wf(),
            value_op_post(old(self)@, final(self)@, mode, r, (|s: MState, v: u8| s.with_y(v))),
    {
        let v = match self.get_operand_value(mode) {
            Ok(v) => v,
            Err(e) => return Err(e),
        };
        self.set_y(v);
        self.advance();
        Ok(Status::Cont)
    }

    /// BIT: test the operand's bits against the accumulator.
    fn op_bit(&mut self, mode: AddressingMode) -> (r: Result<Status, EmuError>)
        requires
            old(self)@.wf(),
            mode.reads_value(),
        ensures
            final(self)@.wf(),
            value_op_post(old(self)@, final(self)@, mode, r, (|s: MState, v: u8| s.apply_bit(v))),
    {
        let v = match self.get_operand_value(mode) {
            Ok(v) => v,
            Err(e) => return Err(e),
        };
        if self.acc & v == 0 {
            self.set_zero();
        } else {
            self.cls_zero();
        }
        if crate::is_negative(v) {
            self.set_negative();
        } else {
            self.cls_negative();
        }
        if v & 0x40 == 0x40 {
            self.set_overflow();
        } else {
            self.cls_overflow();
        }
        self.advance();
        Ok(Status::Cont)
    }

    /// The shared body of CMP, CPX and CPY against the register value `reg`.
    fn op_compare(&mut self, mode: AddressingMode, reg: u8) -> (r: Result<Status, EmuError>)
        requires
            old(self)@.wf(),
            mode.reads_value(),
        ensures
            final(self)@.wf(),
            value_op_post(
                old(self)@,
                final(self)@,
                mode,
                r,
                (|s: MState, v: u8| s.apply_compare(reg, v)),
            ),
    {
        let v = match self.get_operand_value(mode) {
            Ok(v) => v,
            Err(e) => return Err(e),
        };
        if reg > v {
            self.set_carry();
            self.cls_zero();
        } else if reg == v {
            self.set_carry();
            self.set_zero();
        } else {
            self.cls_carry();
            self.cls_zero();
        }
        let diff: u8 = ((reg as u16 + 256 - v as u16) % 256) as u8;
        if crate::is_negative(diff) {
            self.set_negative();
        } else {
            self.cls_negative();
        }
        self.advance();
        Ok(Status::Cont)
    }

    /// ASL: shift left through the accumulator or memory; carry takes the
    /// bit shifted out.
    fn op_asl(&mut self, mode: AddressingMode) -> (r: Result<Status, EmuError>)
        requires
            old(self)@.wf(),
            mode is Accumulator || mode.yields_address(),
        ensures
            final(self)@.wf(),
            rmw_op_post(
                old(self)@,
                final(self)@,
                mode,
                r,
                (|s: MState| s.apply_asl_acc()),
                (|s: MState, ad: int, v: u8| s.apply_asl_mem(ad, v)),
            ),
    {
        if let AddressingMode::Accumulator = mode {
            let sb = crate::sign_bit(self.acc);
            let new: u8 = ((self.acc as u16 * 2) % 256) as u8;
            self.set_acc(new);
            if sb != 0 {
                self.set_carry();
            } else {
                self.cls_carry();
            }
            self.advance();
            Ok(Status::Cont)
        } else {
            let operand = match self.get_operand(mode) {
                Ok(o) => o,
                Err(e) => return Err(e),
            };
            match operand {
                Operand::Address(ad) => {
                    let v = match self.read_memory(ad) {
                        Ok(v) => v,
                        Err(e) => return Err(e),
                    };
                    if crate::is_negative(v) {
                        self.set_carry();
                    } else {
                        self.cls_carry();
                    }
                    let new: u8 = ((v as u16 * 2) % 256) as u8;
                    match self.write_memory(ad, new) {
                        Ok(()) => {},
                        Err(e) => {
                            proof {
                                assert(false);
                            }
                            return Err(e);
                        },
                    }
                    self.update_zero_and_negative_flags(new);
                    self.advance();
                    Ok(Status::Cont)
                },
                Operand::Value(_) => {
                    proof {
                        assert(false);
                    }
                    unreached()
                },
            }
        }
    }

    /// LSR: shift right through the accumulator or memory; carry takes the
    /// bit shifted out.
    fn op_lsr(&mut self, mode: AddressingMode) -> (r: Result<Status, EmuError>)
        requires
            old(self)@.wf(),
            mode is Accumulator || mode.yields_address(),
        ensures
            final(self)@.wf(),
            rmw_op_post(
                old(self)@,
                final(self)@,
                mode,
                r,
                (|s: MState| s.apply_lsr_acc()),
                (|s: MState, ad: int, v: u8| s.apply_lsr_mem(ad, v)),
            ),
    {
        if let AddressingMode::Accumulator = mode {
            if self.acc % 2 == 1 {
                self.set_carry();
            } else {
                self.cls_carry();
            }
            let new: u8 = self.acc / 2;
            self.set_acc(new);
            self.advance();
            Ok(Status::Cont)
        } else {
            let operand = match self.get_operand(mode) {
                Ok(o) => o,
                Err(e) => return Err(e),
            };
            match operand {
                Operand::Address(ad) => {
                    let v = match self.read_memory(ad) {
                        Ok(v) => v,
                        Err(e) => return Err(e),
                    };
                    if v % 2 == 1 {
                        self.set_carry();
                    } else {
                        self.cls_carry();
                    }
                    let new: u8 = v / 2;
                    match self.write_memory(ad, new) {
                        Ok(()) => {},
                        Err(e) => {
                            proof {
                                assert(false);
                            }
                            return Err(e);
                        },
                    }
                    self.update_zero_and_negative_flags(new);
                    self.advance();
                    Ok(Status::Cont)
                },
                Operand::Value(_) => {
                    proof {
                        assert(false);
                    }
                    unreached()
                },
            }
        }
    }

    /// ROL: rotate left; the old carry feeds the vacated low bit.
    fn op_rol(&mut self, mode: AddressingMode) -> (r: Result<Status, EmuError>)
        requires
            old(self)@.wf(),
            mode is Accumulator || mode.yields_address(),
        ensures
            final(self)@.wf(),
            rmw_op_post(
                old(self)@,
                final(self)@,
                mode,
                r,
                (|s: MState| s.apply_rol_acc()),
                (|s: MState, ad: int, v: u8| s.apply_rol_mem(ad, v)),
            ),
    {
        let carry: u16 = if self.is_carry() {
            1
        } else {
            0
        };
        if let AddressingMode::Accumulator = mode {
            let old_acc = self.acc;
            if crate::is_negative(old_acc) {
                self.set_carry();
            } else {
                self.cls_carry();
            }
            let new: u8 = ((old_acc as u16 * 2 + carry) % 256) as u8;
            self.set_acc(new);
            self.advance();
            Ok(Status::Cont)
        } else {
            let operand = match self.get_operand(mode) {
                Ok(o) => o,
                Err(e) => return Err(e),
            };
            match operand {
                Operand::Address(ad) => {
                    let v = match self.read_memory(ad) {
                        Ok(v) => v,
                        Err(e) => return Err(e),
                    };
                    if crate::is_negative(v) {
                        self.set_carry();
                    } else {
                        self.cls_carry();
                    }
                    let new: u8 = ((v as u16 * 2 + carry) % 256) as u8;
                    match self.write_memory(ad, new) {
                        Ok(()) => {},
                        Err(e) => {
                            proof {
                                assert(false);
                            }
                            return Err(e);
                        },
                    }
                    self.update_zero_and_negative_flags(new);
                    self.advance();
                    Ok(Status::Cont)
                },
                Operand::Value(_) => {
                    proof {
                        assert(false);
                    }
                    unreached()
                },
            }
        }
    }

    /// ROR: rotate right; the old carry feeds the vacated high bit.
    fn op_ror(&mut self, mode: AddressingMode) -> (r: Result<Status, EmuError>)
        requires
            old(self)@.wf(),
            mode is Accumulator || mode.yields_address(),
        ensures
            final(self)@.wf(),
            rmw_op_post(
                old(self)@,
                final(self)@,
                mode,
                r,
                (|s: MState| s.apply_ror_acc()),
                (|s: MState, ad: int, v: u8| s.apply_ror_mem(ad, v)),
            ),
    {
        let high_bit: u8 = if self.is_carry() {
            0x80
        } else {
            0
        };
        if let AddressingMode::Accumulator = mode {
            let old_acc = self.acc;
            if old_acc % 2 == 1 {
                self.set_carry();
            } else {
                self.cls_carry();
            }
            let new: u8 = old_acc / 2 + high_bit;
            self.set_acc(new);
            self.advance();
            Ok(Status::Cont)
        } else {
            let operand = match self.get_operand(mode) {
                Ok(o) => o,
                Err(e) => return Err(e),
            };
            match operand {
                Operand::Address(ad) => {
                    let v = match self.read_memory(ad) {
                        Ok(v) => v,
                        Err(e) => return Err(e),
                    };
                    if v % 2 == 1 {
                        self.set_carry();
                    } else {
                        self.cls_carry();
                    }
                    let new: u8 = v / 2 + high_bit;
                    match self.write_memory(ad, new) {
                        Ok(()) => {},
                        Err(e) => {
                            proof {
                                assert(false);
                            }
                            return Err(e);
                        },
                    }
                    self.update_zero_and_negative_flags(new);
                    self.advance();
                    Ok(Status::Cont)
                },
                Operand::Value(_) => {
                    proof {
                        assert(false);
                    }
                    unreached()
                },
            }
        }
    }

    /// INC: wrapping increment of the addressed byte.
    fn op_inc(&mut self, mode: AddressingMode) -> (r: Result<Status, EmuError>)
        requires
            old(self)@.wf(),
            mode.yields_address(),
        ensures
            final(self)@.wf(),
            mem_rmw_post(
                old(self)@,
                final(self)@,
                mode,
                r,
                (|s: MState, ad: int, v: u8| s.apply_inc(ad, v)),
            ),
    {
        let operand = match self.get_operand(mode) {
            Ok(o) => o,
            Err(e) => return Err(e),
        };
        match operand {
            Operand::Address(ad) => {
                let v = match self.read_memory(ad) {
                    Ok(v) => v,
                    Err(e) => return Err(e),
                };
                let new: u8 = ((v as u16 + 1) % 256) as u8;
                match self.write_memory(ad, new) {
                    Ok(()) => {},
                    Err(e) => {
                        proof {
                            assert(false);
                        }
                        return Err(e);
                    },
                }
                self.update_zero_and_negative_flags(new);
                self.advance();
                Ok(Status::Cont)
            },
            Operand::Value(_) => {
                proof {
                    assert(false);
                }
                unreached()
            },
        }
    }

    /// DEC: wrapping decrement of the addressed byte.
    fn op_dec(&mut self, mode: AddressingMode) -> (r: Result<Status, EmuError>)
        requires
            old(self)@.wf(),
            mode.yields_address(),
        ensures
            final(self)@.wf(),
            mem_rmw_post(
                old(self)@,
                final(self)@,
                mode,
                r,
                (|s: MState, ad: int, v: u8| s.apply_dec(ad, v)),
            ),
    {
        let operand = match self.get_operand(mode) {
            Ok(o) => o,
            Err(e) => return Err(e),
        };
        match operand {
            Operand::Address(ad) => {
                let v = match self.read_memory(ad) {
                    Ok(v) => v,
                    Err(e) => return Err(e),
                };
                let new: u8 = ((v as u16 + 255) % 256) as u8;
                match self.write_memory(ad, new) {
                    Ok(()) => {},
                    Err(e) => {
                        proof {
                            assert(false);
                        }
                        return Err(e);
                    },
                }
                self.update_zero_and_negative_flags(new);
                self.advance();
                Ok(Status::Cont)
            },
            Operand::Value(_) => {
                proof {
                    assert(false);
                }
                unreached()
            },
        }
    }

    /// The shared body of STA, STX and STY: store `v` at the resolved
    /// address.
    fn op_store(&mut self, mode: AddressingMode, v: u8) -> (r: Result<Status, EmuError>)
        requires
            old(self)@.wf(),
            mode.yields_address(),
        ensures
            final(self)@.wf(),
            store_op_post(old(self)@, final(self)@, mode, r, v),
    {
        let operand = match self.get_operand(mode) {
            Ok(o) => o,
            Err(e) => return Err(e),
        };
        match operand {
            Operand::Address(ad) => {
                match self.write_memory(ad, v) {
                    Ok(()) => {},
                    Err(e) => return Err(e),
                }
                self.advance();
                Ok(Status::Cont)
            },
            Operand::Value(_) => {
                proof {
                    assert(false);
                }
                unreached()
            },
        }
    }

    /// The shared body of the eight conditional branches: fall through when
    /// the condition fails, jump to the resolved target when it holds.
    fn op_branch(&mut self, mode: AddressingMode, taken: bool) -> (r: Result<Status, EmuError>)
        requires
            old(self)@.wf(),
            mode.yields_address(),
        ensures
            final(self)@.wf(),
            branch_post(old(self)@, final(self)@, mode, r, taken),
    {
        if taken {
            let operand = match self.get_operand(mode) {
                Ok(o) => o,
                Err(e) => return Err(e),
            };
            match operand {
                Operand::Address(ad) => {
                    match self.goto(ad) {
                        Ok(()) => Ok(Status::Cont),
                        Err(e) => Err(e),
                    }
                },
                Operand::Value(_) => {
                    proof {
                        assert(false);
                    }
                    unreached()
                },
            }
        } else {
            self.advance();
            Ok(Status::Cont)
        }
    }

    /// JSR: push the return counter, jump to the resolved target.
    fn op_jsr(&mut self, mode: AddressingMode) -> (r: Result<Status, EmuError>)
        requires
            old(self)@.wf(),
            mode.yields_address(),
        ensures
            final(self)@.wf(),
            jsr_post(old(self)@, final(self)@, mode, r),
    {
        let operand = match self.get_operand(mode) {
            Ok(o) => o,
            Err(e) => return Err(e),
        };
        match operand {
            Operand::Address(ad) => {
                match self.store_pc() {
                    Ok(()) => {},
                    Err(e) => return Err(e),
                }
                match self.goto(ad) {
                    Ok(()) => Ok(Status::Cont),
                    Err(e) => Err(e),
                }
            },
            Operand::Value(_) => {
                proof {
                    assert(false);
                }
                unreached()
            },
        }
    }

    /// BRK: push the counter and the status byte with BREAK forced on, set
    /// interrupt-disable, and jump through the interrupt vector.
    fn op_brk(&mut self) -> (r: Result<Status, EmuError>)
        requires
            old(self)@.wf(),
        ensures
            final(self)@.wf(),
            brk_post(old(self)@, final(self)@, r),
    {
        match self.store_pc() {
            Ok(()) => {},
            Err(e) => return Err(e),
        }
        let brk_only = Flags { brk: true, ..Flags::empty() };
        proof {
            assert((0u8 | 0u8 | 0u8 | 0u8 | 0x10u8 | 0u8 | 0u8) == 0x10u8) by (bit_vector);
            assert(brk_only.spec_bits() == 0x10u8);
        }
        match self.store_flag_with(brk_only) {
            Ok(()) => {},
            Err(e) => return Err(e),
        }
        self.set_interrupt_disable();
        let target = match self.read_memory_u16(IRQ_VECTOR) {
            Ok(t) => t,
            Err(e) => {
                proof {
                    assert(false);
                }
                return Err(e);
            },
        };
        match self.goto(target as usize) {
            Ok(()) => Ok(Status::Cont),
            Err(e) => Err(e),
        }
    }

    /// RTS: pop a 16-bit counter and transfer control there.
    fn op_rts(&mut self) -> (r: Result<Status, EmuError>)
        requires
            old(self)@.wf(),
        ensures
            final(self)@.wf(),
            rts_post(old(self)@, final(self)@, r),
    {
        match self.restore_pc() {
            Ok(()) => Ok(Status::Cont),
            Err(e) => Err(e),
        }
    }

    /// RTI: pop the status byte, pop a 16-bit counter and transfer control
    /// there.
    fn op_rti(&mut self) -> (r: Result<Status, EmuError>)
        requires
            old(self)@.wf(),
        ensures
            final(self)@.wf(),
            rti_post(old(self)@, final(self)@, r),
    {
        match self.restore_flag() {
            Ok(()) => {},
            Err(e) => return Err(e),
        }
        match self.restore_pc() {
            Ok(()) => Ok(Status::Cont),
            Err(e) => Err(e),
        }
    }

    /// Execute one decoded instruction: the single transition of the
    /// execution engine. The synthetic Halt returns the stop status without
    /// touching the machine; every other instruction applies its documented
    /// effect and either advances the instruction base or transfers control.
    pub fn step(&mut self, op: Operation) -> (r: Result<Status, EmuError>)
        requires
            old(self)@.wf(),
            op.wf(),
        ensures
            final(self)@.wf(),
            step_post(old(self)@, final(self)@, op, r),
            (r == Ok::<Status, EmuError>(Status::Halt)) <==> (op is Halt),
    {
        match op {
            Operation::Adc(mode) => self.op_adc(mode),
            Operation::Sbc(mode) => self.op_sbc(mode),
            Operation::And(mode) => self.op_and(mode),
            Operation::Ora(mode) => self.op_ora(mode),
            Operation::Eor(mode) => self.op_eor(mode),
            Operation::Lda(mode) => self.op_lda(mode),
            Operation::Ldx(mode) => self.op_ldx(mode),
            Operation::Ldy(mode) => self.op_ldy(mode),
            Operation::Bit(mode) => self.op_bit(mode),
            Operation::Cmp(mode) => {
                let reg = self.acc;
                self.op_compare(mode, reg)
            },
            Operation::Cpx(mode) => {
                let reg = self.x;
                self.op_compare(mode, reg)
            },
            Operation::Cpy(mode) => {
                let reg = self.y;
                self.op_compare(mode, reg)
            },
            Operation::Asl(mode) => self.op_asl(mode),
            Operation::Lsr(mode) => self.op_lsr(mode),
            Operation::Rol(mode) => self.op_rol(mode),
            Operation::Ror(mode) => self.op_ror(mode),
            Operation::Inc(mode) => self.op_inc(mode),
            Operation::Dec(mode) => self.op_dec(mode),
            Operation::Sta(mode) => {
                let v = self.acc;
                self.op_store(mode, v)
            },
            Operation::Stx(mode) => {
                let v = self.x;
                self.op_store(mode, v)
            },
            Operation::Sty(mode) => {
                let v = self.y;
                self.op_store(mode, v)
            },
            Operation::Jmp(mode) => self.op_branch(mode, true),
            Operation::Jsr(mode) => self.op_jsr(mode),
            Operation::Bpl(mode) => {
                let taken = !self.is_negative();
                self.op_branch(mode, taken)
            },
            Operation::Bmi(mode) => {
                let taken = self.is_negative();
                self.op_branch(mode, taken)
            },
            Operation::Bvc(mode) => {
                let taken = !self.is_overflow();
                self.op_branch(mode, taken)
            },
            Operation::Bvs(mode) => {
                let taken = self.is_overflow();
                self.op_branch(mode, taken)
            },
            Operation::Bcc(mode) => {
                let taken = !self.is_carry();
                self.op_branch(mode, taken)
            },
            Operation::Bcs(mode) => {
                let taken = self.is_carry();
                self.op_branch(mode, taken)
            },
            Operation::Bne(mode) => {
                let taken = !self.is_zero();
                self.op_branch(mode, taken)
            },
            Operation::Beq(mode) => {
                let taken = self.is_zero();
                self.op_branch(mode, taken)
            },
            Operation::Brk => self.op_brk(),
            Operation::Rti => self.op_rti(),
            Operation::Rts => self.op_rts(),
            Operation::Clc => {
                self.cls_carry();
                self.advance();
                Ok(Status::Cont)
            },
            Operation::Sec => {
                self.set_carry();
                self.advance();
                Ok(Status::Cont)
            },
            Operation::Cli => {
                self.cls_interrupt_disable();
                self.advance();
                Ok(Status::Cont)
            },
            Operation::Sei => {
                self.set_interrupt_disable();
                self.advance();
                Ok(Status::Cont)
            },
            Operation::Clv => {
                self.cls_overflow();
                self.advance();
                Ok(Status::Cont)
            },
            Operation::Cld => {
                self.cls_decimal();
                self.advance();
                Ok(Status::Cont)
            },
            Operation::Sed => {
                self.set_decimal();
                self.advance();
                Ok(Status::Cont)
            },
            Operation::Nop => {
                self.advance();
                Ok(Status::Cont)
            },
            Operation::Tax => {
                let v = self.acc;
                self.set_x(v);
                self.advance();
                Ok(Status::Cont)
            },
            Operation::Txa => {
                let v = self.x;
                self.set_acc(v);
                self.advance();
                Ok(Status::Cont)
            },
            Operation::Tay => {
                let v = self.acc;
                self.set_y(v);
                self.advance();
                Ok(Status::Cont)
            },
            Operation::Tya => {
                let v = self.y;
                self.set_acc(v);
                self.advance();
                Ok(Status::Cont)
            },
            Operation::Tsx => {
                let v = self.sp;
                self.set_x(v);
                self.advance();
                Ok(Status::Cont)
            },
            Operation::Txs => {
                self.sp = self.x;
                self.advance();
                Ok(Status::Cont)
            },
            Operation::Dex => {
                let nv: u8 = ((self.x as u16 + 255) % 256) as u8;
                self.set_x(nv);
                self.advance();
                Ok(Status::Cont)
            },
            Operation::Inx => {
                let nv: u8 = ((self.x as u16 + 1) % 256) as u8;
                self.set_x(nv);
                self.advance();
                Ok(Status::Cont)
            },
            Operation::Dey => {
                let nv: u8 = ((self.y as u16 + 255) % 256) as u8;
                self.set_y(nv);
                self.advance();
                Ok(Status::Cont)
            },
            Operation::Iny => {
                let nv: u8 = ((self.y as u16 + 1) % 256) as u8;
                self.set_y(nv);
                self.advance();
                Ok(Status::Cont)
            },
            Operation::Pha => {
                let v = self.acc;
                match self.stack_push(v) {
                    Ok(()) => {
                        self.advance();
                        Ok(Status::Cont)
                    },
                    Err(e) => Err(e),
                }
            },
            Operation::Php => {
                let brk_only = Flags { brk: true, ..Flags::empty() };
                proof {
                    assert((0u8 | 0u8 | 0u8 | 0u8 | 0x10u8 | 0u8 | 0u8) == 0x10u8) by (bit_vector);
                    assert(brk_only.spec_bits() == 0x10u8);
                }
                match self.store_flag_with(brk_only) {
                    Ok(()) => {
                        self.advance();
                        Ok(Status::Cont)
                    },
                    Err(e) => Err(e),
                }
            },
            Operation::Pla => {
                match self.stack_pop() {
                    Ok(v) => {
                        self.set_acc(v);
                        self.advance();
                        Ok(Status::Cont)
                    },
                    Err(e) => Err(e),
                }
            },
            Operation::Plp => {
                match self.restore_flag() {
                    Ok(()) => {
                        self.advance();
                        Ok(Status::Cont)
                    },
                    Err(e) => Err(e),
                }
            },
            Operation::Halt => Ok(Status::Halt),
        }
    }
}

} // verus!
