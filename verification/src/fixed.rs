//! The fixed-width machine: a processor whose instructions are all four bytes
//! long and whose memory is one flat block, with its assembler and its
//! disassembler.
//!
//! The program is loaded at 0xDAC1. An image of this machine is the address
//! of the first instruction to run, in two bytes, then the data, each text
//! closed by a zero byte, then the instructions.

pub mod assembler;
pub mod bus;
pub mod cpu_dump;
pub mod disassembler;
pub mod label;
pub mod registers;
pub mod token;
pub mod vcpu;
