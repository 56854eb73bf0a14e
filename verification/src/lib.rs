//! A CHIP-8 virtual machine core: memory, register bank, display surface and
//! the instruction decoder/executor, each with a machine-checked contract.

pub mod cpu;
pub mod fault;
pub mod instruction;
pub mod interface;
pub mod keyboard;
pub mod machine;
pub mod memory;
pub mod theorems;
