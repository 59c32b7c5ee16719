//! Core of a RISC-V RV32 hart simulator.

pub mod bitfield;
pub mod bits;
pub mod csr;
pub mod exec;
pub mod inst;
pub mod mmu;
pub mod reg;
