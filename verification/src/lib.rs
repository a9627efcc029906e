//! Instruction engine of the 6502-derived processor found in the NES.
//!
//! The crate models the processor as a register file, a status register and
//! a flat 64 KiB memory bus, and gives every operation a contract over that
//! model.

pub mod addressing;
pub mod arithmetic;
pub mod bits;
pub mod control;
pub mod cpu;
pub mod engine;
pub mod laws;
pub mod machine;
pub mod opcode;
pub mod rom;
pub mod semantics;
pub mod status;
pub mod system;
pub mod trace;
pub mod transfer;
