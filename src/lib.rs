//! A cycle-accounted emulation of the Zilog Z80 processor.
//!
//! The core fetches instructions through a host-supplied [`bus::Bus`],
//! executes them on its register file and reports every memory access,
//! port access and internal operation to the bus as elapsed T-states.
pub mod bus;
pub mod cpu;
pub mod disassembler;
pub mod flags;
pub mod instructions;
pub mod operations;
pub mod registers;
