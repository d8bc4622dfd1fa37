//! Processor state and the fetch-decode-execute loop.
//!
//! The processor runs a flat byte buffer as a stream of opcode + optional
//! operand pairs, mutating registers and status flags until the halt opcode
//! `0x00` (BRK) is decoded.  The meaning of a run is given by the spec
//! function [`run_from`]; `interpret` is proved to compute exactly that.

use vstd::prelude::*;

verus! {

/// Status-flag bit for "the last loaded value was zero" (bit 1).
pub const FLAG_ZERO: u8 = 0x02;

/// Status-flag bit for "the last loaded value had bit 7 set" (bit 7).
pub const FLAG_NEGATIVE: u8 = 0x80;

/// A reason the fetch-decode-execute loop cannot continue.
///
/// Neither condition is recoverable inside the core: both desynchronise the
/// emulated state from real hardware semantics, so the run stops at once and
/// the caller sees which of the two occurred.
#[derive(Clone, Copy, Debug, PartialEq, Eq, Structural)]
pub enum CpuError {
    /// The fetch offset reached the end of the program buffer before a halt
    /// opcode was decoded.
    OutOfBounds,
    /// The decoded opcode has no handler.  Distinct from a malformed program:
    /// it signals an incomplete opcode table.
    UnimplementedOpcode,
}

/// The register and flag state of the processor.
///
/// `status` is a bitfield of independent boolean flags; in scope are the Zero
/// flag (bit 1) and the Negative flag (bit 7), the other bits are reserved and
/// keep whatever value they had.  `sp` is reserved for stack-based opcodes and
/// `y` for future handlers; neither is mutated by the in-scope opcode set.
#[derive(Clone, Copy, Debug)]
pub struct CPU {
    /// Accumulator: the general-purpose working register.
    pub a: u8,
    /// Index register X.
    pub x: u8,
    /// Index register Y.
    pub y: u8,
    /// Program counter: offset of the next byte to fetch.
    pub pc: u16,
    /// Stack pointer.
    pub sp: u16,
    /// Status flags.
    pub status: u8,
}

/// The status byte after the Zero and Negative flags are recomputed from a
/// newly loaded 8-bit `value`; every other bit keeps its prior value.
pub open spec fn flags_after(status: u8, value: u8) -> u8 {
    let with_zero = if value == 0 {
        status | FLAG_ZERO
    } else {
        status & 0xfd
    };
    if value & FLAG_NEGATIVE == FLAG_NEGATIVE {
        with_zero | FLAG_NEGATIVE
    } else {
        with_zero & 0x7f
    }
}

/// The 8-bit successor of `x`, wrapping modulo 256.
pub open spec fn wrapping_inc(x: u8) -> u8 {
    if x == 0xff {
        0
    } else {
        (x + 1) as u8
    }
}

/// Effect of LDA immediate on the state: the accumulator takes the operand
/// and the Zero/Negative flags are recomputed from it.
pub open spec fn spec_lda(cpu: CPU, value: u8) -> CPU {
    CPU { a: value, status: flags_after(cpu.status, value), ..cpu }
}

/// Effect of TAX on the state: X takes the accumulator, and the flags are
/// recomputed from the accumulator (the source register; it holds the same
/// value as the destination right after the transfer).
pub open spec fn spec_tax(cpu: CPU) -> CPU {
    CPU { x: cpu.a, status: flags_after(cpu.status, cpu.a), ..cpu }
}

/// Effect of INX on the state: X is incremented with 8-bit wraparound and the
/// flags are recomputed from the new X.
pub open spec fn spec_inx(cpu: CPU) -> CPU {
    CPU {
        x: wrapping_inc(cpu.x),
        status: flags_after(cpu.status, wrapping_inc(cpu.x)),
        ..cpu
    }
}

/// The meaning of running the fetch-decode-execute loop on `program` from the
/// state `cpu`: the final state together with how the run ended.  `Ok(())`
/// means the halt opcode 0x00 (BRK) was decoded; otherwise the run stopped at
/// a fetch past the end of the buffer (`OutOfBounds`) or at an opcode with no
/// handler (`UnimplementedOpcode`).  A program too long for the 16-bit
/// program counter to address cannot be fetched from at all.
pub open spec fn run_from(cpu: CPU, program: Seq<u8>) -> (CPU, Result<(), CpuError>)
    decreases program.len() - cpu.pc,
{
    if program.len() > 0xffff || cpu.pc >= program.len() {
        (cpu, Err(CpuError::OutOfBounds))
    } else {
        let opcode = program[cpu.pc as int];
        let fetched = CPU { pc: (cpu.pc + 1) as u16, ..cpu };
        if opcode == 0x00 {
            // BRK: halt.
            (fetched, Ok(()))
        } else if opcode == 0xa9 {
            // LDA immediate: the operand is the next byte.
            if fetched.pc >= program.len() {
                (fetched, Err(CpuError::OutOfBounds))
            } else {
                let operand = program[fetched.pc as int];
                let advanced = CPU { pc: (fetched.pc + 1) as u16, ..fetched };
                run_from(spec_lda(advanced, operand), program)
            }
        } else if opcode == 0xaa {
            // TAX.
            run_from(spec_tax(fetched), program)
        } else if opcode == 0xe8 {
            // INX.
            run_from(spec_inx(fetched), program)
        } else {
            (fetched, Err(CpuError::UnimplementedOpcode))
        }
    }
}

/// How many bytes the run beginning at `pc` consumes: one per no-operand
/// opcode and two per one-operand opcode, summed up to and including the halt
/// opcode — or up to the point where the run faults.
pub open spec fn consumed_from(program: Seq<u8>, pc: u16) -> int
    decreases program.len() - pc,
{
    if program.len() > 0xffff || pc >= program.len() {
        0
    } else {
        let opcode = program[pc as int];
        if opcode == 0x00 {
            1
        } else if opcode == 0xa9 {
            if pc + 1 >= program.len() {
                1
            } else {
                2 + consumed_from(program, (pc + 2) as u16)
            }
        } else if opcode == 0xaa || opcode == 0xe8 {
            1 + consumed_from(program, (pc + 1) as u16)
        } else {
            1
        }
    }
}

impl CPU {
    /// A fresh processor: every register and flag zeroed.
    pub fn new() -> (cpu: Self)
        ensures
            cpu == (CPU { a: 0, x: 0, y: 0, pc: 0, sp: 0, status: 0 }),
    {
        Self { a: 0, x: 0, y: 0, pc: 0, sp: 0, status: 0 }
    }

    /// Recompute the Zero flag (bit 1) and the Negative flag (bit 7) from
    /// `value`, leaving every other status bit at its prior value.
    pub fn update_zero_and_negative_flags(&mut self, value: u8)
        ensures
            *final(self) == (CPU {
                status: flags_after(old(self).status, value),
                ..*old(self)
            }),
    {
        if value == 0 {
            self.status = self.status | FLAG_ZERO;
        } else {
            self.status = self.status & 0xfd;
        }

        if value & FLAG_NEGATIVE == FLAG_NEGATIVE {
            self.status = self.status | FLAG_NEGATIVE;
        } else {
            self.status = self.status & 0x7f;
        }
    }

    /// LDA immediate: load `value` into the accumulator and update the flags
    /// from it.
    pub fn lda(&mut self, value: u8)
        ensures
            *final(self) == spec_lda(*old(self), value),
    {
        self.a = value;
        let loaded = self.a;
        self.update_zero_and_negative_flags(loaded);
    }

    /// TAX: transfer the accumulator to X and update the flags.  The flag
    /// computation deliberately reads the accumulator, the source register.
    pub fn tax(&mut self)
        ensures
            *final(self) == spec_tax(*old(self)),
    {
        self.x = self.a;
        let source = self.a;
        self.update_zero_and_negative_flags(source);
    }

    /// INX: increment X, wrapping silently from 0xff to 0, and update the
    /// flags from the new X.  No carry or overflow flag is touched.
    pub fn inx(&mut self)
        ensures
            *final(self) == spec_inx(*old(self)),
    {
        self.x = if self.x == 0xff {
            0
        } else {
            self.x + 1
        };
        let incremented = self.x;
        self.update_zero_and_negative_flags(incremented);
    }

    /// Run `program` to completion or to a fatal condition.
    ///
    /// The program counter is reset to 0 and fetching begins at the start of
    /// the new buffer; every other register carries over from the previous
    /// run — nothing but an opcode resets the accumulator or the index
    /// registers.  The final state and the outcome are exactly those of the
    /// mathematical run [`run_from`] from that starting state: `Ok(())` when
    /// the halt opcode was decoded, and otherwise the error naming the fatal
    /// condition, with the state as it stood at the fault.
    #[verifier::loop_isolation(false)]
    pub fn interpret(&mut self, program: Vec<u8>) -> (result: Result<(), CpuError>)
        requires
            program@.len() <= 0xffff,
        ensures
            *final(self) == run_from((CPU { pc: 0, ..*old(self) }), program@).0,
            result == run_from((CPU { pc: 0, ..*old(self) }), program@).1,
    {
        self.pc = 0;

        loop
            invariant
                self.pc <= program@.len(),
                run_from(*self, program@) == run_from(
                    (CPU { pc: 0, ..*old(self) }),
                    program@,
                ),
            decreases program@.len() - self.pc,
        {
            let ghost pre = *self;

            if self.pc as usize >= program.len() {
                return Err(CpuError::OutOfBounds);
            }
            let opcode = program[self.pc as usize];
            self.pc = self.pc + 1;

            match opcode {
                0x00 => {
                    return Ok(());
                }
                0xa9 => {
                    if self.pc as usize >= program.len() {
                        return Err(CpuError::OutOfBounds);
                    }
                    let operand = program[self.pc as usize];
                    self.pc = self.pc + 1;
                    self.lda(operand);
                }
                0xaa => self.tax(),
                0xe8 => self.inx(),
                _ => {
                    return Err(CpuError::UnimplementedOpcode);
                }
            }

            proof {
                assert(run_from(pre, program@) == run_from(*self, program@));
            }
        }
    }
}

} // verus!
