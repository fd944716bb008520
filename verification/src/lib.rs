//! A toolchain for the YuCPU, a small 16-bit processor.
//!
//! * [`common`] holds what assembler and processor share: the opcode table,
//!   which says for every mnemonic in which addressing modes it exists and
//!   which byte stands for it, and what every instruction does to the
//!   processor.
//! * [`assembler`] turns a source text into tokens, the tokens into labels
//!   with addresses and instructions with checked operands, and those into
//!   the bytes of an image.
//! * [`vcpu`] is the virtual processor: its registers and flags, the devices
//!   that it reaches over its bus, and the tick that fetches one instruction,
//!   decodes it and carries it out.
//! * [`compat`] states what keeps the two halves together: the processor
//!   reads back from an encoded instruction what the assembler wrote into it.
//! * [`fixed`] is the fixed-width machine, whose instructions are all four
//!   bytes long, with its own assembler, processor and disassembler.
//!
//! Nothing here panics. What can go wrong comes back as a value: a
//! [`assembler::parser::ParseError`], an [`assembler::EncodeError`], a
//! [`vcpu::cpu::Fault`].

pub mod assembler;
pub mod common;
pub mod compat;
pub mod fixed;
pub mod vcpu;
