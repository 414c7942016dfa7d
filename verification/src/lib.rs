//! A decoder and register-level simulator for 16-bit 8086 machine code.
//!
//! The crate turns raw instruction bytes into [`decoder::Instruction`] records
//! by matching them against the table of [`instruction_formats`], carries
//! prefix state from one instruction to the next, and runs a small set of
//! operations against a [`register::RegisterFile`] with the flag results the
//! hardware would give. [`printer`] writes instructions and registers out as
//! text, and [`simulator`] puts the parts together into single steps of a run.

pub mod decoder;
pub mod execution_unit;
pub mod instruction_formats;
pub mod memory;
pub mod printer;
pub mod register;
pub mod simulator;
