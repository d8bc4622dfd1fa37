//! Instruction-execution core of an 8-bit CPU in the 6502 family.
//!
//! The [`cpu`] module holds the processor state and the fetch-decode-execute
//! loop together with its mathematical model; the [`laws`] module states and
//! proves the properties that hold of every run.

pub mod cpu;
pub mod laws;
