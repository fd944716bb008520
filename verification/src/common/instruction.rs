//! Instructions as both halves of the toolchain see them.

pub mod instructions;
pub mod opcode;

use vstd::prelude::*;

verus! {

/// An instruction of the fixed-width format: four bytes, of which the first
/// is the opcode, the second the register and the last two the operand, the
/// high byte first.
pub struct Instruction {
    pub opcode: u8,
    pub register: u8,
    pub data: u16,
    /// The bytes that the instruction was read from, where it was read.
    pub source: Vec<u8>,
}

/// The word that two bytes make, the high byte first.
pub open spec fn operand_of(data_1: u8, data_2: u8) -> u16 {
    (data_1 as int * 256 + data_2 as int) as u16
}

impl Instruction {
    pub fn new(opcode: u8, register: u8, data: u16) -> (instruction: Instruction)
        ensures
            instruction.opcode == opcode,
            instruction.register == register,
            instruction.data == data,
            instruction.source@ == Seq::<u8>::empty(),
    {
        Instruction { opcode, register, data, source: Vec::new() }
    }

    /// An instruction whose operand is given as its two bytes.
    pub fn new_u8(opcode: u8, register: u8, data_1: u8, data_2: u8) -> (instruction: Instruction)
        ensures
            instruction.opcode == opcode,
            instruction.register == register,
            instruction.data == operand_of(data_1, data_2),
            instruction.source@ == Seq::<u8>::empty(),
    {
        Instruction {
            opcode,
            register,
            data: (data_1 as u16) * 256 + (data_2 as u16),
            source: Vec::new(),
        }
    }

    /// An instruction with the bytes that it was read from.
    pub fn new_source(opcode: u8, register: u8, data_1: u8, data_2: u8, source: Vec<u8>) -> (instruction:
        Instruction)
        ensures
            instruction.opcode == opcode,
            instruction.register == register,
            instruction.data == operand_of(data_1, data_2),
            instruction.source == source,
    {
        Instruction { opcode, register, data: (data_1 as u16) * 256 + (data_2 as u16), source }
    }

    /// The four bytes of the instruction.
    pub open spec fn bytes(self) -> Seq<u8> {
        seq![
            self.opcode,
            self.register,
            (self.data as int / 256) as u8,
            (self.data as int % 256) as u8,
        ]
    }
}

} // verus!
