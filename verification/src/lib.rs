//! A small interpreter for a 32-bit RISC-style instruction set: bounded
//! memory, instruction decoder, register machine and ELF32 image loader.

pub mod constants;
pub mod memory;
pub mod itxs;
pub mod decoder;
pub mod cpu;
pub mod compiler;
pub mod abi;
pub mod sdk;
