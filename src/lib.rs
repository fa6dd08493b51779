//! A 16-bit virtual computer: an instruction-set simulator for a small
//! RISC-style processor and the address-decoded memory map it drives.

pub mod memory;
pub mod mem_map;
pub mod processor;
pub mod computer;
pub mod laws;
