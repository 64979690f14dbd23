//! Instruction-level simulator of the MOS 6502 processor.
//!
//! The crate is split by component: the processor status flags, the flat
//! 64 KiB memory, the instruction catalog, and the execution engine that ties
//! them together. Every executable function carries a contract over the
//! mathematical model of the machine defined in [`machine`].

pub mod cpu;
pub mod error;
pub mod machine;
pub mod memory;
pub mod opcode;
pub mod status;
pub mod text;
