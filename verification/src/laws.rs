//! Properties that hold of every run of the processor.
//!
//! Each public proof function here states one law of the core — about the
//! flag-update rule, the INX wraparound cycle, the bytes the program counter
//! accounts for, and the effect of an opcode with no handler — over the spec
//! functions that the executable functions are proved against.

use vstd::prelude::*;

use crate::cpu::consumed_from;
use crate::cpu::flags_after;
use crate::cpu::run_from;
use crate::cpu::spec_inx;
use crate::cpu::spec_lda;
use crate::cpu::spec_tax;
use crate::cpu::CpuError;
use crate::cpu::CPU;

verus! {

/// After any opcode loads an 8-bit `value` into a register, the Zero flag
/// (bit 1) is set iff `value == 0`, the Negative flag (bit 7) is set iff
/// bit 7 of `value` is set, and no other status bit changes.  Every
/// register-affecting handler ends with `status == flags_after(prior, value)`.
pub proof fn lemma_load_flags(status: u8, value: u8)
    ensures
        flags_after(status, value) & 0x02 == (if value == 0 { 0x02u8 } else { 0x00u8 }),
        flags_after(status, value) & 0x80 == value & 0x80,
        flags_after(status, value) & 0x7d == status & 0x7d,
{
    if value == 0 {
        assert(value & 0x80 != 0x80 && ((status | 0x02) & 0x7f) & 0x02 == 0x02
            && ((status | 0x02) & 0x7f) & 0x80 == value & 0x80
            && ((status | 0x02) & 0x7f) & 0x7d == status & 0x7d) by (bit_vector)
            requires
                value == 0u8,
        ;
    } else if value & 0x80 == 0x80 {
        assert((((status & 0xfd) | 0x80) & 0x02 == 0x00
            && ((status & 0xfd) | 0x80) & 0x80 == value & 0x80
            && ((status & 0xfd) | 0x80) & 0x7d == status & 0x7d)) by (bit_vector)
            requires
                value & 0x80 == 0x80u8,
        ;
    } else {
        assert((((status & 0xfd) & 0x7f) & 0x02 == 0x00
            && ((status & 0xfd) & 0x7f) & 0x80 == value & 0x80
            && ((status & 0xfd) & 0x7f) & 0x7d == status & 0x7d)) by (bit_vector)
            requires
                value != 0u8 && value & 0x80 != 0x80u8,
        ;
    }
}

/// The state after `n` applications of the INX handler to `cpu`.
pub open spec fn repeat_inx(cpu: CPU, n: nat) -> CPU
    decreases n,
{
    if n == 0 {
        cpu
    } else {
        spec_inx(repeat_inx(cpu, (n - 1) as nat))
    }
}

/// After at most 256 applications of INX, the X register holds its original
/// value plus `n`, reduced once past 255 by the 8-bit wraparound.
proof fn lemma_repeat_inx_x(cpu: CPU, n: nat)
    requires
        n <= 256,
    ensures
        repeat_inx(cpu, n).x == (if cpu.x + n < 256 { cpu.x + n } else { cpu.x + n - 256 }),
    decreases n,
{
    if n > 0 {
        lemma_repeat_inx_x(cpu, (n - 1) as nat);
    }
}

/// Wraparound law: whatever X holds, applying INX exactly 256 times returns
/// X to its original value.
pub proof fn lemma_inx_wraparound(cpu: CPU)
    ensures
        repeat_inx(cpu, 256).x == cpu.x,
{
    lemma_repeat_inx_x(cpu, 256);
}

/// The program counter accounts for every byte consumed: after a run from
/// `cpu`, it has advanced by exactly `consumed_from(program, cpu.pc)` — one
/// byte per no-operand opcode and two per one-operand opcode, up to and
/// including the halt opcode or the fault that ended the run.
pub proof fn lemma_pc_counts_consumed(cpu: CPU, program: Seq<u8>)
    ensures
        run_from(cpu, program).0.pc == cpu.pc + consumed_from(program, cpu.pc),
    decreases program.len() - cpu.pc,
{
    if program.len() > 0xffff || cpu.pc >= program.len() {
    } else {
        let opcode = program[cpu.pc as int];
        let fetched = CPU { pc: (cpu.pc + 1) as u16, ..cpu };
        if opcode == 0x00 {
        } else if opcode == 0xa9 {
            if fetched.pc < program.len() {
                let operand = program[fetched.pc as int];
                let advanced = CPU { pc: (fetched.pc + 1) as u16, ..fetched };
                lemma_pc_counts_consumed(spec_lda(advanced, operand), program);
            }
        } else if opcode == 0xaa {
            lemma_pc_counts_consumed(spec_tax(fetched), program);
        } else if opcode == 0xe8 {
            lemma_pc_counts_consumed(spec_inx(fetched), program);
        }
    }
}

/// An opcode outside the implemented set {0x00, 0xa9, 0xaa, 0xe8} ends the
/// run with `UnimplementedOpcode`, and the only state mutation is the
/// program-counter advance already made for the fetch.
pub proof fn lemma_unknown_opcode_faults(cpu: CPU, program: Seq<u8>)
    requires
        program.len() <= 0xffff,
        cpu.pc < program.len(),
        program[cpu.pc as int] != 0x00,
        program[cpu.pc as int] != 0xa9,
        program[cpu.pc as int] != 0xaa,
        program[cpu.pc as int] != 0xe8,
    ensures
        run_from(cpu, program) == ((CPU { pc: (cpu.pc + 1) as u16, ..cpu }), Err::<
            (),
            CpuError,
        >(CpuError::UnimplementedOpcode)),
{
}

/// No in-scope opcode touches the Y register or the stack pointer: a run
/// leaves both exactly as it found them.
pub proof fn lemma_run_preserves_y_and_sp(cpu: CPU, program: Seq<u8>)
    ensures
        run_from(cpu, program).0.y == cpu.y,
        run_from(cpu, program).0.sp == cpu.sp,
    decreases program.len() - cpu.pc,
{
    if program.len() > 0xffff || cpu.pc >= program.len() {
    } else {
        let opcode = program[cpu.pc as int];
        let fetched = CPU { pc: (cpu.pc + 1) as u16, ..cpu };
        if opcode == 0x00 {
        } else if opcode == 0xa9 {
            if fetched.pc < program.len() {
                let operand = program[fetched.pc as int];
                let advanced = CPU { pc: (fetched.pc + 1) as u16, ..fetched };
                lemma_run_preserves_y_and_sp(spec_lda(advanced, operand), program);
            }
        } else if opcode == 0xaa {
            lemma_run_preserves_y_and_sp(spec_tax(fetched), program);
        } else if opcode == 0xe8 {
            lemma_run_preserves_y_and_sp(spec_inx(fetched), program);
        }
    }
}

} // verus!
