//! A verified RV32IM instruction-set simulator core.
//!
//! The crate models a 32-bit little-endian machine: a byte-addressable
//! memory, a register file with a hard-wired zero register, a decoder from
//! 32-bit instruction words to typed operations, and the execution semantics
//! of the base integer instructions plus the multiply/divide extension.

pub mod bits;
pub mod cpu;
pub mod encoding;
pub mod instruction;
pub mod machine;
pub mod opcode;
pub mod ram;
pub mod rv32i;
pub mod rv32m;
