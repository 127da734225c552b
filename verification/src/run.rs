use vstd::prelude::*;

use crate::decode::{operand_bytes, parse_opcode, spec_decode, SliceCursor};
use crate::exec::step_post;
use crate::laws::lemma_step_keeps_running;
use crate::machine::{EmuError, MState, Machine, Status, MEMORY_SIZE};

verus! {

/// How a bounded run ended: the program halted, its byte stream ran out
/// cleanly, or it was still running when the cycle budget was spent.
#[derive(Clone, Copy, Debug, PartialEq, Eq, Structural)]
pub enum BootOutcome {
    Halted,
    EndOfStream,
    Stopped,
}

/// What one fetch-decode-execute cycle tells the run loop.
#[derive(Clone, Copy, Debug, PartialEq, Eq, Structural)]
pub enum CycleOutcome {
    /// An instruction ran; the loop goes on.
    Ran,
    /// The synthetic Halt instruction was executed.
    Halted,
    /// The byte stream ended cleanly with no further opcode.
    EndOfStream,
}

/// The byte streams the decoder may fetch through the bus: the remaining
/// memory from the program counter on, except that the reserved random
/// address yields a fresh value in [1, 16) like every other bus read.
pub open spec fn fetched_ok(pre: MState, w: Seq<u8>) -> bool {
    &&& w.len() == MEMORY_SIZE - pre.pc
    &&& (forall|j: int| 0 <= j < w.len() ==> pre.read_ok(#[trigger] (pre.pc + j), w[j]))
}

/// What one cycle does to a given fetched stream: decode it, commit the
/// advanced counter, and run the instruction under the execution relation.
/// Decode errors leave the partially advanced counter behind.
pub open spec fn cycle_post_fetched(
    pre: MState,
    post: MState,
    r: Result<CycleOutcome, EmuError>,
    w: Seq<u8>,
) -> bool {
    match spec_decode(w) {
        Ok(Some(op)) => {
            let mid = MState { pc: pre.pc + 1 + operand_bytes(w[0]), ..pre };
            if op is Halt {
                r == Ok::<CycleOutcome, EmuError>(CycleOutcome::Halted) && post == mid
            } else {
                match r {
                    Ok(o) => o is Ran && step_post(mid, post, op, Ok(Status::Cont)),
                    Err(e) => step_post(mid, post, op, Err(e)),
                }
            }
        },
        Ok(None) => r == Ok::<CycleOutcome, EmuError>(CycleOutcome::EndOfStream) && post == pre,
        Err(e) => {
            &&& r == Err::<CycleOutcome, EmuError>(e)
            &&& (e == EmuError::UnknownOpcode ==> post == (MState { pc: pre.pc + 1, ..pre }))
            &&& (e == EmuError::TruncatedOperand ==> post == (MState {
                pc: MEMORY_SIZE as int,
                ..pre
            }))
        },
    }
}

/// What one cycle may do: some stream the bus may yield was fetched, decoded
/// and executed. The relation collapses to a function whenever the reserved
/// random address lies below the program counter.
pub open spec fn cycle_post(pre: MState, post: MState, r: Result<CycleOutcome, EmuError>) -> bool {
    exists|w: Seq<u8>| #[trigger] fetched_ok(pre, w) && cycle_post_fetched(pre, post, r, w)
}

/// What a bounded run may do, cycle by cycle: with no budget the machine is
/// untouched; otherwise one cycle runs, and the run either stops there (the
/// synthetic Halt, a clean end of stream, or that cycle's error, each with
/// that cycle's machine state) or continues on the rest of the budget. A
/// spent budget reports `Stopped`.
pub open spec fn boot_post(
    pre: MState,
    post: MState,
    fuel: int,
    r: Result<BootOutcome, EmuError>,
) -> bool
    decreases fuel,
{
    if fuel <= 0 {
        r == Ok::<BootOutcome, EmuError>(BootOutcome::Stopped) && post == pre
    } else {
        exists|mid: MState, midr: Result<CycleOutcome, EmuError>|
            #![trigger cycle_post(pre, mid, midr)]
            cycle_post(pre, mid, midr) && match midr {
                Ok(CycleOutcome::Ran) => boot_post(mid, post, fuel - 1, r),
                Ok(CycleOutcome::Halted) => r == Ok::<BootOutcome, EmuError>(BootOutcome::Halted)
                    && post == mid,
                Ok(CycleOutcome::EndOfStream) => r == Ok::<BootOutcome, EmuError>(
                    BootOutcome::EndOfStream,
                ) && post == mid,
                Err(e) => r == Err::<BootOutcome, EmuError>(e) && post == mid,
            }
    }
}

impl Machine {
    /// One cycle of the run loop: fetch through the memory bus at the
    /// program counter, decode the instruction and execute it. An exhausted
    /// stream is a clean end; the synthetic Halt stops the loop without
    /// touching the registers.
    pub fn step_cycle(&mut self) -> (r: Result<CycleOutcome, EmuError>)
        requires
            old(self)@.wf(),
        ensures
            final(self)@.wf(),
            cycle_post(old(self)@, final(self)@, r),
            final(self)@.running == old(self)@.running,
    {
        let ghost pre = self@;
        let mut window: Vec<u8> = Vec::new();
        let mut i: usize = self.pc;
        while i < MEMORY_SIZE
            invariant
                self@ == pre,
                pre.wf(),
                pre.pc <= i <= MEMORY_SIZE,
                window@.len() == i - pre.pc,
                forall|j: int|
                    0 <= j < window@.len() ==> pre.read_ok(#[trigger] (pre.pc + j), window@[j]),
            decreases MEMORY_SIZE - i,
        {
            let b = match self.read_memory(i) {
                Ok(b) => b,
                Err(e) => {
                    proof {
                        assert(false);
                    }
                    return Err(e);
                },
            };
            window.push(b);
            i = i + 1;
        }
        proof {
            assert(fetched_ok(pre, window@));
        }
        let mut cur = SliceCursor { bytes: &window, pos: 0 };
        let res = parse_opcode(&mut cur);
        let consumed = cur.pos;
        self.pc = self.pc + consumed;
        let outcome = match res {
            Ok(None) => Ok(CycleOutcome::EndOfStream),
            Ok(Some(op)) => {
                let ghost mid = self@;
                let stepped = self.step(op);
                proof {
                    lemma_step_keeps_running(mid, self@, op, stepped);
                }
                match stepped {
                    Ok(Status::Halt) => Ok(CycleOutcome::Halted),
                    Ok(Status::Cont) => Ok(CycleOutcome::Ran),
                    Err(e) => Err(e),
                }
            },
            Err(e) => Err(e),
        };
        proof {
            assert(cycle_post_fetched(pre, self@, outcome, window@));
        }
        outcome
    }

    /// Raise the running flag and run cycles until the program halts, the
    /// stream ends cleanly, an error surfaces, or the cycle budget is spent.
    /// This loop observes no wall clock and polls no input; pacing and the
    /// display and input collaborators sit with the caller that owns them,
    /// whose own loop also honours a withdrawn running flag.
    pub fn boot(&mut self, fuel: usize) -> (r: Result<BootOutcome, EmuError>)
        requires
            old(self)@.wf(),
        ensures
            final(self)@.wf(),
            final(self)@.running,
            boot_post((MState { running: true, ..old(self)@ }), final(self)@, fuel as int, r),
    {
        self.running = true;
        self.boot_cycles(fuel)
    }


    /// The chain of cycles behind `boot`: one recursive step per unit of
    /// budget.
    fn boot_cycles(&mut self, fuel: usize) -> (r: Result<BootOutcome, EmuError>)
        requires
            old(self)@.wf(),
        ensures
            final(self)@.wf(),
            final(self)@.running == old(self)@.running,
            boot_post(old(self)@, final(self)@, fuel as int, r),
        decreases fuel,
    {
        if fuel == 0 {
            return Ok(BootOutcome::Stopped);
        }
        let ghost pre = self@;
        let cycled = self.step_cycle();
        proof {
            assert(cycle_post(pre, self@, cycled));
        }
        match cycled {
            Ok(CycleOutcome::Ran) => self.boot_cycles(fuel - 1),
            Ok(CycleOutcome::Halted) => Ok(BootOutcome::Halted),
            Ok(CycleOutcome::EndOfStream) => Ok(BootOutcome::EndOfStream),
            Err(e) => Err(e),
        }
    }
}

} // verus!
