//! A RISC-V (RV32IMAC) emulator core for the SiFive HiFive1 Rev B board:
//! instruction decoding, execution, registers, memory map and the
//! terminal front-end state, each with a machine-checked contract.
pub mod bits;
pub mod cli;
pub mod cpu;
pub mod text;
pub mod input;
pub mod instructions;
pub mod register;
pub mod decoder;
pub mod events;
pub mod memory;
pub mod view;

