//! The fixed-width processor.
//!
//! It fetches four bytes at the program counter, looks the first of them up
//! among its operations and carries the operation out, until the program
//! counter leaves the program.

use super::bus::{blank, copied, short_at, DataBus};
use super::cpu_dump::CPUDump;
use super::registers::Registers;
use crate::common::instruction::{operand_of, Instruction};
use std::collections::HashMap;
use vstd::prelude::*;

verus! {

/// The address at which programs are loaded.
pub const LOAD_ADDRESS: u16 = 0xDAC1;

/// Where a dump of the processor is to go.
#[derive(Debug, Clone, Copy, PartialEq, Eq, Structural)]
pub enum DumpAction {
    File,
    Struct,
}

/// Why the processor stopped.
#[derive(Debug, Clone, Copy, PartialEq, Eq, Structural)]
pub enum VcpuFault {
    /// No operation has this opcode.
    UnknownOpcode(u8),
    /// The instruction names a register above the ninth.
    InvalidRegister,
    /// An access past the end of the memory.
    OutOfRange,
    /// A sum above the largest word, or a difference below zero.
    Overflow,
    /// A program without the two bytes of its start address.
    EmptyProgram,
    /// A program that does not fit the memory from the load address on.
    ProgramTooLarge,
}

/// The operations of the processor.
#[derive(Debug, Clone, Copy, PartialEq, Eq, Structural)]
pub enum Operation {
    MovValue,
    LdRegister,
    LdAddress,
    PshValue,
    PshRegister,
    PshAddress,
    PopRegister,
    InsPop,
    LdShort,
    MovRegister,
    StAddress,
    StlAddress,
    SthAddress,
    StRegister,
    StlRegister,
    SthRegister,
    CmpRegister,
    CmpValue,
    Beq,
    Bgt,
    Blt,
    Jmp,
    Bof,
    Bne,
    AddValue,
    SubValue,
    AddRegister,
    SubRegister,
    Call,
    Ret,
    Hlt,
    Nop,
}

/// The operation with the opcode `opcode`.
pub open spec fn operation_of(opcode: u8) -> Option<Operation> {
    if opcode == 0x00 {
        Some(Operation::MovValue)
    } else if opcode == 0x01 {
        Some(Operation::LdRegister)
    } else if opcode == 0x02 {
        Some(Operation::LdAddress)
    } else if opcode == 0x03 {
        Some(Operation::PshValue)
    } else if opcode == 0x04 {
        Some(Operation::PshRegister)
    } else if opcode == 0x05 {
        Some(Operation::PshAddress)
    } else if opcode == 0x06 {
        Some(Operation::PopRegister)
    } else if opcode == 0x07 {
        Some(Operation::InsPop)
    } else if opcode == 0x08 {
        Some(Operation::LdShort)
    } else if opcode == 0x09 {
        Some(Operation::MovRegister)
    } else if opcode == 0x10 {
        Some(Operation::StAddress)
    } else if opcode == 0x11 {
        Some(Operation::StlAddress)
    } else if opcode == 0x12 {
        Some(Operation::SthAddress)
    } else if opcode == 0x13 {
        Some(Operation::StRegister)
    } else if opcode == 0x14 {
        Some(Operation::StlRegister)
    } else if opcode == 0x15 {
        Some(Operation::SthRegister)
    } else if opcode == 0x20 {
        Some(Operation::CmpRegister)
    } else if opcode == 0x21 {
        Some(Operation::CmpValue)
    } else if opcode == 0x30 {
        Some(Operation::Beq)
    } else if opcode == 0x31 {
        Some(Operation::Bgt)
    } else if opcode == 0x32 {
        Some(Operation::Blt)
    } else if opcode == 0x33 {
        Some(Operation::Jmp)
    } else if opcode == 0x34 {
        Some(Operation::Bof)
    } else if opcode == 0x35 {
        Some(Operation::Bne)
    } else if opcode == 0x40 {
        Some(Operation::AddValue)
    } else if opcode == 0x41 {
        Some(Operation::SubValue)
    } else if opcode == 0x42 {
        Some(Operation::AddRegister)
    } else if opcode == 0x43 {
        Some(Operation::SubRegister)
    } else if opcode == 0x50 {
        Some(Operation::Call)
    } else if opcode == 0x51 {
        Some(Operation::Ret)
    } else if opcode == 0xfe {
        Some(Operation::Hlt)
    } else if opcode == 0xff {
        Some(Operation::Nop)
    } else if opcode == 0x0a {
        Some(Operation::MovValue)
    } else {
        None
    }
}

/// The fixed-width processor as a value.
pub struct VcpuState {
    pub memory: Seq<u8>,
    pub registers: Registers,
    pub start_addr: u16,
    pub end_of_program: u16,
}

/// The low byte of a word.
pub open spec fn low(word: u16) -> u8 {
    (word as int % 256) as u8
}

/// The high byte of a word.
pub open spec fn high(word: u16) -> u8 {
    (word as int / 256) as u8
}

/// Whether the bit with the number `bit` is set in the flags.
pub open spec fn flag(flags: u8, bit: nat) -> bool {
    if bit == 0 {
        flags as int % 2 == 1
    } else if bit == 1 {
        (flags as int / 2) % 2 == 1
    } else if bit == 5 {
        (flags as int / 32) % 2 == 1
    } else {
        (flags as int / 64) % 2 == 1
    }
}

/// A byte as a word.
pub open spec fn widened(byte: Result<u8, VcpuFault>) -> Result<u16, VcpuFault> {
    match byte {
        Ok(value) => Ok(value as u16),
        Err(fault) => Err(fault),
    }
}

/// The low byte of a word.
pub open spec fn lows(word: Result<u16, VcpuFault>) -> Result<u8, VcpuFault> {
    match word {
        Ok(value) => Ok(low(value)),
        Err(fault) => Err(fault),
    }
}

/// The high byte of a word.
pub open spec fn highs(word: Result<u16, VcpuFault>) -> Result<u8, VcpuFault> {
    match word {
        Ok(value) => Ok(high(value)),
        Err(fault) => Err(fault),
    }
}

/// The sum of two words; a fault where it does not fit a word.
pub open spec fn sum(a: Result<u16, VcpuFault>, b: Result<u16, VcpuFault>) -> Result<u16, VcpuFault> {
    match (a, b) {
        (Ok(x), Ok(y)) => if x + y > 0xFFFF {
            Err(VcpuFault::Overflow)
        } else {
            Ok((x + y) as u16)
        },
        (Err(fault), _) => Err(fault),
        (_, Err(fault)) => Err(fault),
    }
}

/// The difference of two words; a fault where it is below zero.
pub open spec fn difference(a: Result<u16, VcpuFault>, b: Result<u16, VcpuFault>) -> Result<
    u16,
    VcpuFault,
> {
    match (a, b) {
        (Ok(x), Ok(y)) => if x < y {
            Err(VcpuFault::Overflow)
        } else {
            Ok((x - y) as u16)
        },
        (Err(fault), _) => Err(fault),
        (_, Err(fault)) => Err(fault),
    }
}

/// A processor after a step, and the fault with which the step ended if it
/// failed. A step that fails leaves the processor as it was when the failure
/// came.
pub struct VStep {
    pub state: VcpuState,
    pub fault: Option<VcpuFault>,
}

/// A step that went through and left the processor in `state`.
pub open spec fn went(state: VcpuState) -> VStep {
    VStep { state, fault: None }
}

/// A step that failed with `fault` and left the processor in `state`.
pub open spec fn failed(state: VcpuState, fault: VcpuFault) -> VStep {
    VStep { state, fault: Some(fault) }
}

impl VStep {
    /// What the routine that takes the step returns.
    pub open spec fn result(self) -> Result<(), VcpuFault> {
        match self.fault {
            Some(fault) => Err(fault),
            None => Ok(()),
        }
    }
}

/// The step `step`, followed by moving the program counter on.
pub open spec fn after_advance(step: VStep) -> VStep {
    if step.fault is Some {
        step
    } else {
        step.state.advanced()
    }
}

/// The step `step`, followed by a jump to `target`.
pub open spec fn after_jump(step: VStep, target: u16) -> VStep {
    if step.fault is Some {
        step
    } else {
        step.state.branched(true, target)
    }
}

/// The step `step`, followed by putting `value` into the register `reg`.
pub open spec fn after_set(step: VStep, reg: u8, value: u16) -> VStep {
    if step.fault is Some {
        step
    } else {
        step.state.set(reg, value)
    }
}

impl VcpuState {
    /// What the register with the number `reg` holds.
    pub open spec fn get(self, reg: u8) -> Result<u16, VcpuFault> {
        if reg > 8 {
            Err(VcpuFault::InvalidRegister)
        } else {
            Ok(self.registers.get(reg))
        }
    }

    /// The processor with `value` in the register with the number `reg`.
    pub open spec fn set(self, reg: u8, value: u16) -> VStep {
        if reg > 8 {
            failed(self, VcpuFault::InvalidRegister)
        } else {
            went(VcpuState { registers: self.registers.with(reg, value), ..self })
        }
    }

    /// The processor with `value`, where there is one, in the register `reg`.
    pub open spec fn set_from(self, reg: u8, value: Result<u16, VcpuFault>) -> VStep {
        match value {
            Ok(value) => self.set(reg, value),
            Err(fault) => failed(self, fault),
        }
    }

    /// The processor with its program counter four bytes on.
    pub open spec fn advanced(self) -> VStep {
        if self.registers.pc + 4 > 0xFFFF {
            failed(self, VcpuFault::Overflow)
        } else {
            went(
                VcpuState {
                    registers: Registers { pc: (self.registers.pc + 4) as u16, ..self.registers },
                    ..self
                },
            )
        }
    }

    /// A jump to `target` where `taken` holds, else the program counter moves
    /// on.
    pub open spec fn branched(self, taken: bool, target: u16) -> VStep {
        if taken {
            went(VcpuState { registers: Registers { pc: target, ..self.registers }, ..self })
        } else {
            self.advanced()
        }
    }

    /// The byte at `addr`.
    pub open spec fn byte(self, addr: u16) -> Result<u8, VcpuFault> {
        if addr < self.memory.len() {
            Ok(self.memory[addr as int])
        } else {
            Err(VcpuFault::OutOfRange)
        }
    }

    /// The word at `addr`, the high byte first.
    pub open spec fn short(self, addr: u16) -> Result<u16, VcpuFault> {
        if addr + 1 < self.memory.len() {
            Ok(short_at(self.memory, addr as int))
        } else {
            Err(VcpuFault::OutOfRange)
        }
    }

    /// The word at the address `addr`, where there is one.
    pub open spec fn short_from(self, addr: Result<u16, VcpuFault>) -> Result<u16, VcpuFault> {
        match addr {
            Ok(addr) => self.short(addr),
            Err(fault) => Err(fault),
        }
    }

    /// The processor with `value` at `addr`.
    pub open spec fn wrote(self, addr: u16, value: u8) -> VStep {
        if addr < self.memory.len() {
            went(VcpuState { memory: self.memory.update(addr as int, value), ..self })
        } else {
            failed(self, VcpuFault::OutOfRange)
        }
    }

    /// The processor with the word `value` at `addr`, the high byte first.
    pub open spec fn wrote_short(self, addr: u16, value: u16) -> VStep {
        if addr + 1 < self.memory.len() {
            went(
                VcpuState {
                    memory: self.memory.update(addr as int, high(value)).update(
                        addr + 1,
                        low(value),
                    ),
                    ..self
                },
            )
        } else {
            failed(self, VcpuFault::OutOfRange)
        }
    }

    /// The processor with the byte `value` at `addr`, where there are both.
    pub open spec fn wrote_from(
        self,
        addr: Result<u16, VcpuFault>,
        value: Result<u8, VcpuFault>,
    ) -> VStep {
        match (value, addr) {
            (Ok(value), Ok(addr)) => self.wrote(addr, value),
            (Err(fault), _) => failed(self, fault),
            (_, Err(fault)) => failed(self, fault),
        }
    }

    /// The processor with the word `value` at `addr`, where there are both.
    pub open spec fn wrote_short_from(
        self,
        addr: Result<u16, VcpuFault>,
        value: Result<u16, VcpuFault>,
    ) -> VStep {
        match (value, addr) {
            (Ok(value), Ok(addr)) => self.wrote_short(addr, value),
            (Err(fault), _) => failed(self, fault),
            (_, Err(fault)) => failed(self, fault),
        }
    }

    /// The processor after a push: the word is written where the stack
    /// pointer points, and the stack pointer moves up by two.
    pub open spec fn pushed(self, value: u16) -> VStep {
        let wrote = self.wrote_short(self.registers.sp, value);
        if wrote.fault is Some {
            wrote
        } else if self.registers.sp + 2 > 0xFFFF {
            failed(wrote.state, VcpuFault::Overflow)
        } else {
            went(
                VcpuState {
                    registers: Registers {
                        sp: (self.registers.sp + 2) as u16,
                        ..wrote.state.registers
                    },
                    ..wrote.state
                },
            )
        }
    }

    /// The processor after a push of `value`, where there is one.
    pub open spec fn pushed_from(self, value: Result<u16, VcpuFault>) -> VStep {
        match value {
            Ok(value) => self.pushed(value),
            Err(fault) => failed(self, fault),
        }
    }

    /// The word that a pop reads.
    pub open spec fn top(self) -> u16 {
        short_at(self.memory, self.registers.sp - 2)
    }

    /// The processor after a pop: the stack pointer moves down by two, and
    /// the word to which it then points is read and made zero.
    pub open spec fn popped(self) -> VStep {
        if self.registers.sp < 2 {
            failed(self, VcpuFault::Overflow)
        } else if self.registers.sp - 1 >= self.memory.len() {
            failed(self, VcpuFault::OutOfRange)
        } else {
            went(
                VcpuState {
                    registers: Registers { sp: (self.registers.sp - 2) as u16, ..self.registers },
                    memory: self.memory.update(self.registers.sp - 2, 0u8).update(
                        self.registers.sp - 1,
                        0u8,
                    ),
                    ..self
                },
            )
        }
    }

    /// The processor after a comparison of `a` with `b`: the flags are the
    /// one flag that says how `a` stands to `b`.
    pub open spec fn compared(self, a: u16, b: u16) -> VcpuState {
        VcpuState {
            registers: Registers {
                flags: if a == b {
                    0b00000001u8
                } else if a > b {
                    0b00100000u8
                } else {
                    0b01000000u8
                },
                ..self.registers
            },
            ..self
        }
    }

    /// The processor after a comparison, where there are both operands.
    pub open spec fn compared_from(
        self,
        a: Result<u16, VcpuFault>,
        b: Result<u16, VcpuFault>,
    ) -> VStep {
        match (a, b) {
            (Ok(a), Ok(b)) => went(self.compared(a, b)),
            (Err(fault), _) => failed(self, fault),
            (_, Err(fault)) => failed(self, fault),
        }
    }
}

/// An instruction as a value.
pub struct InstructionWord {
    pub opcode: u8,
    pub register: u8,
    pub data: u16,
}

/// Whether the processor is in the state in which `expected` leaves it and
/// the routine has returned what `expected` says it returns.
pub open spec fn steps(state: VcpuState, result: Result<(), VcpuFault>, expected: VStep) -> bool {
    state == expected.state && result == expected.result()
}

/// MOV with a number: the number goes to the register.
#[verifier::opaque]
pub open spec fn inst_mov_value_step(cpu: VcpuState, instruction: InstructionWord) -> VStep {
    after_advance(cpu.set(instruction.register, instruction.data))
}

/// LD with a register: the word at the address that the second register holds goes to the first.
#[verifier::opaque]
pub open spec fn inst_ld_register_step(cpu: VcpuState, instruction: InstructionWord) -> VStep {
    after_advance(cpu.set_from(instruction.register, cpu.short_from(cpu.get(low(instruction.data)))))
}

/// LD with an address: the byte at the address goes to the register.
#[verifier::opaque]
pub open spec fn inst_ld_address_step(cpu: VcpuState, instruction: InstructionWord) -> VStep {
    after_advance(cpu.set_from(instruction.register, widened(cpu.byte(instruction.data))))
}

/// PSH with a number: the number is pushed.
#[verifier::opaque]
pub open spec fn inst_psh_value_step(cpu: VcpuState, instruction: InstructionWord) -> VStep {
    after_advance(cpu.pushed(instruction.data))
}

/// PSH with a register: what the register holds is pushed.
#[verifier::opaque]
pub open spec fn inst_psh_register_step(cpu: VcpuState, instruction: InstructionWord) -> VStep {
    after_advance(cpu.pushed_from(cpu.get(instruction.register)))
}

/// PSH with an address: the byte at the address is pushed as a word.
#[verifier::opaque]
pub open spec fn inst_psh_address_step(cpu: VcpuState, instruction: InstructionWord) -> VStep {
    after_advance(cpu.pushed_from(widened(cpu.byte(instruction.data))))
}

/// POP with a register: the word on top of the stack goes to the register.
#[verifier::opaque]
pub open spec fn inst_pop_register_step(cpu: VcpuState, instruction: InstructionWord) -> VStep {
    after_advance(after_set(cpu.popped(), instruction.register, cpu.top()))
}

/// POP without a register: the word on top of the stack is dropped.
#[verifier::opaque]
pub open spec fn inst_ins_pop_step(cpu: VcpuState, instruction: InstructionWord) -> VStep {
    after_advance(cpu.popped())
}

/// LDS: the word at the address goes to the register.
#[verifier::opaque]
pub open spec fn inst_ld_short_step(cpu: VcpuState, instruction: InstructionWord) -> VStep {
    after_advance(cpu.set_from(instruction.register, cpu.short(instruction.data)))
}

/// MOV with a register: what the second register holds goes to the first.
#[verifier::opaque]
pub open spec fn inst_mov_register_step(cpu: VcpuState, instruction: InstructionWord) -> VStep {
    after_advance(cpu.set_from(instruction.register, cpu.get(low(instruction.data))))
}

/// ST with an address: what the register holds goes to the word at the address.
#[verifier::opaque]
pub open spec fn inst_st_address_step(cpu: VcpuState, instruction: InstructionWord) -> VStep {
    after_advance(cpu.wrote_short_from(Ok(instruction.data), cpu.get(instruction.register)))
}

/// STL with an address: the low byte of the register goes to the byte at the address.
#[verifier::opaque]
pub open spec fn inst_stl_address_step(cpu: VcpuState, instruction: InstructionWord) -> VStep {
    after_advance(cpu.wrote_from(Ok(instruction.data), lows(cpu.get(instruction.register))))
}

/// STH with an address: the high byte of the register goes to the byte at the address.
#[verifier::opaque]
pub open spec fn inst_sth_address_step(cpu: VcpuState, instruction: InstructionWord) -> VStep {
    after_advance(cpu.wrote_from(Ok(instruction.data), highs(cpu.get(instruction.register))))
}

/// ST with a register: what the first register holds goes to the word at the address that the second holds.
#[verifier::opaque]
pub open spec fn inst_st_register_step(cpu: VcpuState, instruction: InstructionWord) -> VStep {
    after_advance(cpu.wrote_short_from(cpu.get(low(instruction.data)), cpu.get(instruction.register)))
}

/// STL with a register: the low byte of the first register goes to the byte at the address that the second holds.
#[verifier::opaque]
pub open spec fn inst_stl_register_step(cpu: VcpuState, instruction: InstructionWord) -> VStep {
    after_advance(cpu.wrote_from(cpu.get(low(instruction.data)), lows(cpu.get(instruction.register))))
}

/// STH with a register: the high byte of the first register goes to the byte at the address that the second holds.
#[verifier::opaque]
pub open spec fn inst_sth_register_step(cpu: VcpuState, instruction: InstructionWord) -> VStep {
    after_advance(cpu.wrote_from(cpu.get(low(instruction.data)), highs(cpu.get(instruction.register))))
}

/// CMP with a register: the first register is compared with the second.
#[verifier::opaque]
pub open spec fn inst_cmp_register_step(cpu: VcpuState, instruction: InstructionWord) -> VStep {
    after_advance(cpu.compared_from(cpu.get(instruction.register), cpu.get(low(instruction.data))))
}

/// CMP with a number: the register is compared with the number.
#[verifier::opaque]
pub open spec fn inst_cmp_value_step(cpu: VcpuState, instruction: InstructionWord) -> VStep {
    after_advance(cpu.compared_from(cpu.get(instruction.register), Ok(instruction.data)))
}

/// BEQ: a jump where the flag for equal is set.
#[verifier::opaque]
pub open spec fn inst_beq_step(cpu: VcpuState, instruction: InstructionWord) -> VStep {
    cpu.branched(flag(cpu.registers.flags, 0), instruction.data)
}

/// BGT: a jump where the flag for greater is set.
#[verifier::opaque]
pub open spec fn inst_bgt_step(cpu: VcpuState, instruction: InstructionWord) -> VStep {
    cpu.branched(flag(cpu.registers.flags, 5), instruction.data)
}

/// BLT: a jump where the flag for less is set.
#[verifier::opaque]
pub open spec fn inst_blt_step(cpu: VcpuState, instruction: InstructionWord) -> VStep {
    cpu.branched(flag(cpu.registers.flags, 6), instruction.data)
}

/// JMP: a jump.
#[verifier::opaque]
pub open spec fn inst_jmp_step(cpu: VcpuState, instruction: InstructionWord) -> VStep {
    cpu.branched(true, instruction.data)
}

/// BOF: a jump where the flag for overflow is set.
#[verifier::opaque]
pub open spec fn inst_bof_step(cpu: VcpuState, instruction: InstructionWord) -> VStep {
    cpu.branched(flag(cpu.registers.flags, 1), instruction.data)
}

/// BNE: a jump where the flag for equal is clear.
#[verifier::opaque]
pub open spec fn inst_bne_step(cpu: VcpuState, instruction: InstructionWord) -> VStep {
    cpu.branched(!flag(cpu.registers.flags, 0), instruction.data)
}

/// ADD with a number: a fault where the sum does not fit a word.
#[verifier::opaque]
pub open spec fn inst_add_value_step(cpu: VcpuState, instruction: InstructionWord) -> VStep {
    after_advance(cpu.set_from(instruction.register, sum(cpu.get(instruction.register), Ok(instruction.data))))
}

/// SUB with a number: a fault where the difference is below zero.
#[verifier::opaque]
pub open spec fn inst_sub_value_step(cpu: VcpuState, instruction: InstructionWord) -> VStep {
    after_advance(cpu.set_from(instruction.register, difference(cpu.get(instruction.register), Ok(instruction.data))))
}

/// ADD with a register.
#[verifier::opaque]
pub open spec fn inst_add_register_step(cpu: VcpuState, instruction: InstructionWord) -> VStep {
    after_advance(cpu.set_from(instruction.register, sum(cpu.get(instruction.register), cpu.get(low(instruction.data)))))
}

/// SUB with a register.
#[verifier::opaque]
pub open spec fn inst_sub_register_step(cpu: VcpuState, instruction: InstructionWord) -> VStep {
    after_advance(cpu.set_from(instruction.register, difference(cpu.get(instruction.register), cpu.get(low(instruction.data)))))
}

/// CALL: the address of the next instruction is pushed, then a jump.
#[verifier::opaque]
pub open spec fn inst_call_step(cpu: VcpuState, instruction: InstructionWord) -> VStep {
    after_jump(cpu.pushed_from(sum(Ok(cpu.registers.pc), Ok(4u16))), instruction.data)
}

/// RET: the word on top of the stack goes to the program counter.
#[verifier::opaque]
pub open spec fn inst_ret_step(cpu: VcpuState, instruction: InstructionWord) -> VStep {
    after_jump(cpu.popped(), cpu.top())
}

/// HLT: the program counter goes behind the end of the program, which ends the run.
#[verifier::opaque]
pub open spec fn inst_hlt_step(cpu: VcpuState, instruction: InstructionWord) -> VStep {
    match sum(Ok(cpu.end_of_program), Ok(1u16)) {
        Ok(past) => cpu.branched(true, past),
        Err(fault) => failed(cpu, fault),
    }
}

/// NOP: the program counter moves on.
#[verifier::opaque]
pub open spec fn inst_nop_step(cpu: VcpuState, instruction: InstructionWord) -> VStep {
    cpu.advanced()
}

/// What the operation `operation` does to the processor.
#[verifier::opaque]
pub open spec fn operated(cpu: VcpuState, operation: Operation, instruction: InstructionWord) -> VStep {
    match operation {
        Operation::MovValue => inst_mov_value_step(cpu, instruction),
        Operation::LdRegister => inst_ld_register_step(cpu, instruction),
        Operation::LdAddress => inst_ld_address_step(cpu, instruction),
        Operation::PshValue => inst_psh_value_step(cpu, instruction),
        Operation::PshRegister => inst_psh_register_step(cpu, instruction),
        Operation::PshAddress => inst_psh_address_step(cpu, instruction),
        Operation::PopRegister => inst_pop_register_step(cpu, instruction),
        Operation::InsPop => inst_ins_pop_step(cpu, instruction),
        Operation::LdShort => inst_ld_short_step(cpu, instruction),
        Operation::MovRegister => inst_mov_register_step(cpu, instruction),
        Operation::StAddress => inst_st_address_step(cpu, instruction),
        Operation::StlAddress => inst_stl_address_step(cpu, instruction),
        Operation::SthAddress => inst_sth_address_step(cpu, instruction),
        Operation::StRegister => inst_st_register_step(cpu, instruction),
        Operation::StlRegister => inst_stl_register_step(cpu, instruction),
        Operation::SthRegister => inst_sth_register_step(cpu, instruction),
        Operation::CmpRegister => inst_cmp_register_step(cpu, instruction),
        Operation::CmpValue => inst_cmp_value_step(cpu, instruction),
        Operation::Beq => inst_beq_step(cpu, instruction),
        Operation::Bgt => inst_bgt_step(cpu, instruction),
        Operation::Blt => inst_blt_step(cpu, instruction),
        Operation::Jmp => inst_jmp_step(cpu, instruction),
        Operation::Bof => inst_bof_step(cpu, instruction),
        Operation::Bne => inst_bne_step(cpu, instruction),
        Operation::AddValue => inst_add_value_step(cpu, instruction),
        Operation::SubValue => inst_sub_value_step(cpu, instruction),
        Operation::AddRegister => inst_add_register_step(cpu, instruction),
        Operation::SubRegister => inst_sub_register_step(cpu, instruction),
        Operation::Call => inst_call_step(cpu, instruction),
        Operation::Ret => inst_ret_step(cpu, instruction),
        Operation::Hlt => inst_hlt_step(cpu, instruction),
        Operation::Nop => inst_nop_step(cpu, instruction),
    }
}

/// The processor after the instruction at the program counter: its four
/// bytes are read, and the operation of the first of them is carried out.
pub open spec fn cycled(cpu: VcpuState) -> VStep {
    let pc = cpu.registers.pc;
    if pc + 3 >= cpu.memory.len() {
        failed(cpu, VcpuFault::OutOfRange)
    } else {
        let instruction = InstructionWord {
            opcode: cpu.memory[pc as int],
            register: cpu.memory[pc + 1],
            data: operand_of(cpu.memory[pc + 2], cpu.memory[pc + 3]),
        };
        match operation_of(instruction.opcode) {
            None => failed(cpu, VcpuFault::UnknownOpcode(instruction.opcode)),
            Some(operation) => operated(cpu, operation, instruction),
        }
    }
}

/// The processor after instructions until the program counter leaves the
/// program, and after at most `limit` of them.
pub open spec fn ran(cpu: VcpuState, limit: nat) -> VStep
    decreases limit,
{
    if limit == 0 || cpu.registers.pc >= cpu.end_of_program {
        went(cpu)
    } else {
        let first = cycled(cpu);
        if first.fault is Some {
            first
        } else {
            ran(first.state, (limit - 1) as nat)
        }
    }
}

/// The fixed-width processor.
#[allow(clippy::upper_case_acronyms)]
pub struct VCPU {
    pub data_bus: DataBus,
    pub registers: Registers,
    pub start_addr: u16,
    pub end_of_program: u16,
}

impl View for VCPU {
    type V = VcpuState;

    open spec fn view(&self) -> VcpuState {
        VcpuState {
            memory: self.data_bus.memory@,
            registers: self.registers,
            start_addr: self.start_addr,
            end_of_program: self.end_of_program,
        }
    }
}

/// The low byte of a word.
pub fn low_byte(word: u16) -> (byte: u8)
    ensures
        byte == low(word),
{
    (word % 256) as u8
}

/// The high byte of a word.
pub fn high_byte(word: u16) -> (byte: u8)
    ensures
        byte == high(word),
{
    (word / 256) as u8
}

/// Whether the bit with the number `bit`, which is 0, 1, 5 or 6, is set in
/// the flags.
pub fn flag_set(flags: u8, bit: u8) -> (set: bool)
    ensures
        set == flag(flags, bit as nat),
{
    if bit == 0 {
        flags % 2 == 1
    } else if bit == 1 {
        (flags / 2) % 2 == 1
    } else if bit == 5 {
        (flags / 32) % 2 == 1
    } else {
        (flags / 64) % 2 == 1
    }
}

/// The sum of two words; a fault where it does not fit a word.
pub fn add_words(a: u16, b: u16) -> (total: Result<u16, VcpuFault>)
    ensures
        total == sum(Ok(a), Ok(b)),
{
    if a as u32 + b as u32 > 0xFFFF {
        Err(VcpuFault::Overflow)
    } else {
        Ok(a + b)
    }
}

/// The difference of two words; a fault where it is below zero.
pub fn sub_words(a: u16, b: u16) -> (rest: Result<u16, VcpuFault>)
    ensures
        rest == difference(Ok(a), Ok(b)),
{
    if a < b {
        Err(VcpuFault::Overflow)
    } else {
        Ok(a - b)
    }
}

/// The instruction as a value.
pub open spec fn word_of(instruction: &Instruction) -> InstructionWord {
    InstructionWord {
        opcode: instruction.opcode,
        register: instruction.register,
        data: instruction.data,
    }
}

impl VCPU {
    /// A processor with a blank memory and zeroed registers that takes its
    /// program at 0xDAC1.
    pub fn new() -> (cpu: VCPU)
        ensures
            cpu@ == (VcpuState {
                memory: blank(0xFFDD),
                registers: super::registers::zeroed(),
                start_addr: 0xDAC1,
                end_of_program: 0,
            }),
    {
        VCPU {
            data_bus: DataBus::new(),
            registers: Registers::new(),
            start_addr: LOAD_ADDRESS,
            end_of_program: 0x0000,
        }
    }

    /// Blanks the memory and zeroes the registers; the program counter goes
    /// to 0xDAC1.
    pub fn reset(&mut self)
        ensures
            final(self)@ == (VcpuState {
                memory: blank(0xFFDD),
                registers: Registers { pc: 0xDAC1, ..super::registers::zeroed() },
                ..old(self)@
            }),
    {
        self.data_bus.reset();
        self.registers.r1 = 0x00;
        self.registers.r2 = 0x00;
        self.registers.r3 = 0x00;
        self.registers.r4 = 0x00;
        self.registers.r5 = 0x00;
        self.registers.r6 = 0x00;
        self.registers.pc = LOAD_ADDRESS;
        self.registers.sp = 0x00;
        self.registers.bp = 0x00;
        self.registers.flags = 0x00;
    }

    /// Loads a program: its first two bytes are the address at which it
    /// begins to run, the rest goes into the memory at 0xDAC1.
    pub fn load_program(&mut self, program: Vec<u8>) -> (result: Result<(), VcpuFault>)
        ensures
            steps(
                final(self)@,
                result,
                if program@.len() < 2 {
                    failed(old(self)@, VcpuFault::EmptyProgram)
                } else if 0xDAC1 + program@.len() - 2 > old(self)@.memory.len() || 0xDAC1
                    + program@.len() - 2 > 0xFFFF {
                    failed(old(self)@, VcpuFault::ProgramTooLarge)
                } else {
                    went(
                        VcpuState {
                            memory: copied(old(self)@.memory, 0xDAC1, program@.skip(2)),
                            start_addr: operand_of(program@[0], program@[1]),
                            end_of_program: (0xDAC1 + program@.len() - 2) as u16,
                            ..old(self)@
                        },
                    )
                },
            ),
    {
        if program.len() < 2 {
            return Err(VcpuFault::EmptyProgram);
        }
        let length = program.len() - 2;
        if length > 0xFFFF - 0xDAC1 || self.data_bus.memory.len() < 0xDAC1 || length
            > self.data_bus.memory.len() - 0xDAC1 {
            return Err(VcpuFault::ProgramTooLarge);
        }
        let start_addr = (program[0] as u16) * 256 + program[1] as u16;
        let mut body: Vec<u8> = Vec::new();
        let mut i: usize = 2;
        while i < program.len()
            invariant
                2 <= i <= program.len(),
                body@ =~= program@.subrange(2, i as int),
            decreases program.len() - i,
        {
            body.push(program[i]);
            i += 1;
        }
        assert(body@ =~= program@.skip(2));
        self.start_addr = start_addr;
        self.data_bus.mem_copy(LOAD_ADDRESS, body.as_slice());
        self.end_of_program = (length + 0xDAC1) as u16;
        Ok(())
    }

    /// Runs the program from its start address until the program counter
    /// leaves the program, and for at most `limit` instructions.
    pub fn run(&mut self, limit: u64) -> (result: Result<(), VcpuFault>)
        ensures
            steps(
                final(self)@,
                result,
                ran(
                    VcpuState {
                        registers: Registers { pc: old(self).start_addr, ..old(self).registers },
                        ..old(self)@
                    },
                    limit as nat,
                ),
            ),
    {
        self.registers.pc = self.start_addr;
        let ghost begin = self@;
        let mut left = limit;
        while left > 0 && self.registers.pc < self.end_of_program
            invariant
                begin == (VcpuState {
                    registers: Registers { pc: old(self).start_addr, ..old(self).registers },
                    ..old(self)@
                }),
                ran(begin, limit as nat) == ran(self@, left as nat),
            decreases left,
        {
            self.cycle()?;
            left -= 1;
        }
        Ok(())
    }

    /// Fetches the instruction at the program counter and carries it out.
    pub fn cycle(&mut self) -> (result: Result<(), VcpuFault>)
        ensures
            steps(final(self)@, result, cycled(old(self)@)),
    {
        let pc = self.registers.pc as usize;
        if self.data_bus.memory.len() < 4 || pc >= self.data_bus.memory.len() - 3 {
            return Err(VcpuFault::OutOfRange);
        }
        let opcode = self.data_bus.memory[pc];
        let register = self.data_bus.memory[pc + 1];
        let data_1 = self.data_bus.memory[pc + 2];
        let data_2 = self.data_bus.memory[pc + 3];
        let instruction = Instruction::new_u8(opcode, register, data_1, data_2);
        self.decode(instruction)
    }

    /// Moves the program counter on by the four bytes of an instruction.
    pub fn advance(&mut self) -> (result: Result<(), VcpuFault>)
        ensures
            steps(final(self)@, result, old(self)@.advanced()),
    {
        if self.registers.pc > 0xFFFF - 4 {
            return Err(VcpuFault::Overflow);
        }
        self.registers.pc += 4;
        Ok(())
    }

    /// Jumps to `target` where `taken` holds, else moves the program counter
    /// on.
    pub fn branch(&mut self, taken: bool, target: u16) -> (result: Result<(), VcpuFault>)
        ensures
            steps(final(self)@, result, old(self)@.branched(taken, target)),
    {
        if taken {
            self.registers.pc = target;
            Ok(())
        } else {
            self.advance()
        }
    }

    /// Carries out an instruction: the operation of its opcode.
    pub fn decode(&mut self, instruction: Instruction) -> (result: Result<(), VcpuFault>)
        ensures
            steps(
                final(self)@,
                result,
                match operation_of(instruction.opcode) {
                    None => failed(old(self)@, VcpuFault::UnknownOpcode(instruction.opcode)),
                    Some(operation) => operated(old(self)@, operation, word_of(&instruction)),
                },
            ),
    {
        reveal(operated);
        match VCPU::operation(instruction.opcode) {
            None => Err(VcpuFault::UnknownOpcode(instruction.opcode)),
            Some(operation) => match operation {
                Operation::MovValue => self.inst_mov_value(&instruction),
                Operation::LdRegister => self.inst_ld_register(&instruction),
                Operation::LdAddress => self.inst_ld_address(&instruction),
                Operation::PshValue => self.inst_psh_value(&instruction),
                Operation::PshRegister => self.inst_psh_register(&instruction),
                Operation::PshAddress => self.inst_psh_address(&instruction),
                Operation::PopRegister => self.inst_pop_register(&instruction),
                Operation::InsPop => self.inst_ins_pop(&instruction),
                Operation::LdShort => self.inst_ld_short(&instruction),
                Operation::MovRegister => self.inst_mov_register(&instruction),
                Operation::StAddress => self.inst_st_address(&instruction),
                Operation::StlAddress => self.inst_stl_address(&instruction),
                Operation::SthAddress => self.inst_sth_address(&instruction),
                Operation::StRegister => self.inst_st_register(&instruction),
                Operation::StlRegister => self.inst_stl_register(&instruction),
                Operation::SthRegister => self.inst_sth_register(&instruction),
                Operation::CmpRegister => self.inst_cmp_register(&instruction),
                Operation::CmpValue => self.inst_cmp_value(&instruction),
                Operation::Beq => self.inst_beq(&instruction),
                Operation::Bgt => self.inst_bgt(&instruction),
                Operation::Blt => self.inst_blt(&instruction),
                Operation::Jmp => self.inst_jmp(&instruction),
                Operation::Bof => self.inst_bof(&instruction),
                Operation::Bne => self.inst_bne(&instruction),
                Operation::AddValue => self.inst_add_value(&instruction),
                Operation::SubValue => self.inst_sub_value(&instruction),
                Operation::AddRegister => self.inst_add_register(&instruction),
                Operation::SubRegister => self.inst_sub_register(&instruction),
                Operation::Call => self.inst_call(&instruction),
                Operation::Ret => self.inst_ret(&instruction),
                Operation::Hlt => self.inst_hlt(&instruction),
                Operation::Nop => self.inst_nop(&instruction),
            },
        }
    }

    /// The operation with the opcode `opcode`.
    pub fn operation(opcode: u8) -> (found: Option<Operation>)
        ensures
            found == operation_of(opcode),
    {
        match opcode {
            0x00 => Some(Operation::MovValue),
            0x01 => Some(Operation::LdRegister),
            0x02 => Some(Operation::LdAddress),
            0x03 => Some(Operation::PshValue),
            0x04 => Some(Operation::PshRegister),
            0x05 => Some(Operation::PshAddress),
            0x06 => Some(Operation::PopRegister),
            0x07 => Some(Operation::InsPop),
            0x08 => Some(Operation::LdShort),
            0x09 => Some(Operation::MovRegister),
            0x10 => Some(Operation::StAddress),
            0x11 => Some(Operation::StlAddress),
            0x12 => Some(Operation::SthAddress),
            0x13 => Some(Operation::StRegister),
            0x14 => Some(Operation::StlRegister),
            0x15 => Some(Operation::SthRegister),
            0x20 => Some(Operation::CmpRegister),
            0x21 => Some(Operation::CmpValue),
            0x30 => Some(Operation::Beq),
            0x31 => Some(Operation::Bgt),
            0x32 => Some(Operation::Blt),
            0x33 => Some(Operation::Jmp),
            0x34 => Some(Operation::Bof),
            0x35 => Some(Operation::Bne),
            0x40 => Some(Operation::AddValue),
            0x41 => Some(Operation::SubValue),
            0x42 => Some(Operation::AddRegister),
            0x43 => Some(Operation::SubRegister),
            0x50 => Some(Operation::Call),
            0x51 => Some(Operation::Ret),
            0xfe => Some(Operation::Hlt),
            0xff => Some(Operation::Nop),
            0x0a => Some(Operation::MovValue),
            _ => None,
        }
    }

    /// The operations by their opcodes.
    pub fn fill_hashmap() -> (map: HashMap<u8, Operation>)
        ensures
            forall|opcode: u8| #[trigger] map@.contains_key(opcode) <==> operation_of(opcode) is Some,
            forall|opcode: u8| #[trigger]
                map@.contains_key(opcode) ==> Some(map@[opcode]) == operation_of(opcode),
    {
        broadcast use vstd::std_specs::hash::group_hash_axioms;

        let mut map: HashMap<u8, Operation> = HashMap::new();
        let mut next: u16 = 0;
        while next < 256
            invariant
                next <= 256,
                forall|b: u8|
                    #[trigger] map@.contains_key(b) <==> b < next && operation_of(b) is Some,
                forall|b: u8| #[trigger] map@.contains_key(b) ==> Some(map@[b]) == operation_of(b),
            decreases 256 - next,
        {
            let opcode = next as u8;
            match VCPU::operation(opcode) {
                Some(operation) => {
                    map.insert(opcode, operation);
                },
                None => {},
            }
            next += 1;
        }
        map
    }

    /// What the register with the number `reg` holds.
    pub fn get_register(&self, reg: u8) -> (value: Result<u16, VcpuFault>)
        ensures
            value == self@.get(reg),
    {
        match reg {
            0 => Ok(self.registers.r1),
            1 => Ok(self.registers.r2),
            2 => Ok(self.registers.r3),
            3 => Ok(self.registers.r4),
            4 => Ok(self.registers.r5),
            5 => Ok(self.registers.r6),
            6 => Ok(self.registers.pc),
            7 => Ok(self.registers.sp),
            8 => Ok(self.registers.bp),
            _ => Err(VcpuFault::InvalidRegister),
        }
    }

    /// Puts `value` into the register with the number `reg`.
    pub fn set_register(&mut self, reg: u8, value: u16) -> (result: Result<(), VcpuFault>)
        ensures
            steps(final(self)@, result, old(self)@.set(reg, value)),
    {
        match reg {
            0 => self.registers.r1 = value,
            1 => self.registers.r2 = value,
            2 => self.registers.r3 = value,
            3 => self.registers.r4 = value,
            4 => self.registers.r5 = value,
            5 => self.registers.r6 = value,
            6 => self.registers.pc = value,
            7 => self.registers.sp = value,
            8 => self.registers.bp = value,
            _ => {
                return Err(VcpuFault::InvalidRegister);
            },
        }
        Ok(())
    }

    /// The register with the number `reg`, to read and to write.
    pub fn decode_register(&mut self, reg: u8) -> (register: &mut u16)
        requires
            reg <= 8,
        ensures
            *register == old(self).registers.get(reg),
            final(self)@ == (VcpuState {
                registers: old(self).registers.with(reg, *final(register)),
                ..old(self)@
            }),
    {
        match reg {
            0 => &mut self.registers.r1,
            1 => &mut self.registers.r2,
            2 => &mut self.registers.r3,
            3 => &mut self.registers.r4,
            4 => &mut self.registers.r5,
            5 => &mut self.registers.r6,
            6 => &mut self.registers.pc,
            7 => &mut self.registers.sp,
            _ => &mut self.registers.bp,
        }
    }

    /// The byte at `addr`.
    pub fn read(&self, addr: u16) -> (value: Result<u8, VcpuFault>)
        ensures
            value == self@.byte(addr),
    {
        if addr as usize >= self.data_bus.memory.len() {
            return Err(VcpuFault::OutOfRange);
        }
        Ok(self.data_bus.read_panic(addr))
    }

    /// The word at `addr`.
    pub fn read_short(&self, addr: u16) -> (value: Result<u16, VcpuFault>)
        ensures
            value == self@.short(addr),
    {
        if self.data_bus.memory.len() < 2 || addr as usize >= self.data_bus.memory.len() - 1 {
            return Err(VcpuFault::OutOfRange);
        }
        Ok(self.data_bus.read_short_panic(addr))
    }

    /// Puts `value` at `addr`.
    pub fn write(&mut self, addr: u16, value: u8) -> (result: Result<(), VcpuFault>)
        ensures
            steps(final(self)@, result, old(self)@.wrote(addr, value)),
    {
        if addr as usize >= self.data_bus.memory.len() {
            return Err(VcpuFault::OutOfRange);
        }
        self.data_bus.write_panic(addr, &value);
        Ok(())
    }

    /// Puts the word `value` at `addr`, the high byte first.
    pub fn write_short(&mut self, addr: u16, value: u16) -> (result: Result<(), VcpuFault>)
        ensures
            steps(final(self)@, result, old(self)@.wrote_short(addr, value)),
    {
        if self.data_bus.memory.len() < 2 || addr as usize >= self.data_bus.memory.len() - 1 {
            return Err(VcpuFault::OutOfRange);
        }
        self.data_bus.memory.set(addr as usize, high_byte(value));
        self.data_bus.memory.set(addr as usize + 1, low_byte(value));
        Ok(())
    }

    /// Compares `a` with `b` and leaves in the flags the one flag that says
    /// how they stand: equal, greater or less.
    pub fn compare(&mut self, a: u16, b: u16)
        ensures
            final(self)@ == old(self)@.compared(a, b),
            flag(final(self).registers.flags, 0) <==> a == b,
            flag(final(self).registers.flags, 5) <==> a > b,
            flag(final(self).registers.flags, 6) <==> a < b,
    {
        if a == b {
            self.registers.flags = 0b00000001;
        } else if a > b {
            self.registers.flags = 0b00100000;
        } else {
            self.registers.flags = 0b01000000;
        }
    }

    /// Pushes a word.
    pub fn push(&mut self, value: &u16) -> (result: Result<(), VcpuFault>)
        ensures
            steps(final(self)@, result, old(self)@.pushed(*value)),
    {
        self.write_short(self.registers.sp, *value)?;
        if self.registers.sp > 0xFFFF - 2 {
            return Err(VcpuFault::Overflow);
        }
        self.registers.sp += 2;
        Ok(())
    }

    /// Pops a word and makes its two bytes zero.
    pub fn pop(&mut self) -> (result: Result<u16, VcpuFault>)
        ensures
            final(self)@ == old(self)@.popped().state,
            result == match old(self)@.popped().fault {
                None => Ok::<u16, VcpuFault>(old(self)@.top()),
                Some(fault) => Err::<u16, VcpuFault>(fault),
            },
    {
        if self.registers.sp < 2 {
            return Err(VcpuFault::Overflow);
        }
        if (self.registers.sp - 1) as usize >= self.data_bus.memory.len() {
            return Err(VcpuFault::OutOfRange);
        }
        self.registers.sp -= 2;
        let value = self.data_bus.read_short_panic(self.registers.sp);
        self.data_bus.write_panic(self.registers.sp, &0x00);
        self.data_bus.write_panic(self.registers.sp + 1, &0x00);
        Ok(value)
    }

    /// A snapshot of the processor: its registers, the bytes below the stack
    /// pointer, and its memory. Nothing where the dump is to go to a file:
    /// writing files is not this library's business.
    pub fn dump_cpu(&self, dump_action: DumpAction) -> (dump: Option<CPUDump>)
        ensures
            dump_action == DumpAction::File ==> dump is None,
            dump_action == DumpAction::Struct ==> dump is Some && dump.unwrap().registers
                == self.registers && dump.unwrap().memory.memory@ == self.data_bus.memory@
                && dump.unwrap().stack@ == self.data_bus.memory@.take(
                if self.registers.sp <= self.data_bus.memory@.len() {
                    self.registers.sp as int
                } else {
                    self.data_bus.memory@.len() as int
                },
            ),
    {
        match dump_action {
            DumpAction::File => None,
            DumpAction::Struct => {
                let mut stack: Vec<u8> = Vec::new();
                let mut i: usize = 0;
                while i < self.registers.sp as usize && i < self.data_bus.memory.len()
                    invariant
                        i <= self.registers.sp,
                        i <= self.data_bus.memory.len(),
                        stack@ =~= self.data_bus.memory@.take(i as int),
                    decreases self.data_bus.memory.len() - i,
                {
                    stack.push(self.data_bus.memory[i]);
                    i += 1;
                }
                Some(CPUDump::new(&self.registers, stack, &self.data_bus))
            },
        }
    }

    /// MOV with a number: the number goes to the register.
    pub fn inst_mov_value(&mut self, instruction: &Instruction) -> (result: Result<(), VcpuFault>)
        ensures
            steps(final(self)@, result, inst_mov_value_step(old(self)@, word_of(instruction))),
    {
        reveal(inst_mov_value_step);
        self.set_register(instruction.register, instruction.data)?;
        self.advance()
    }

    /// LD with a register: the word at the address that the second register holds goes to the first.
    pub fn inst_ld_register(&mut self, instruction: &Instruction) -> (result: Result<(), VcpuFault>)
        ensures
            steps(final(self)@, result, inst_ld_register_step(old(self)@, word_of(instruction))),
    {
        reveal(inst_ld_register_step);
        let addr = self.get_register(low_byte(instruction.data))?;
        let value = self.read_short(addr)?;
        self.set_register(instruction.register, value)?;
        self.advance()
    }

    /// LD with an address: the byte at the address goes to the register.
    pub fn inst_ld_address(&mut self, instruction: &Instruction) -> (result: Result<(), VcpuFault>)
        ensures
            steps(final(self)@, result, inst_ld_address_step(old(self)@, word_of(instruction))),
    {
        reveal(inst_ld_address_step);
        let value = self.read(instruction.data)? as u16;
        self.set_register(instruction.register, value)?;
        self.advance()
    }

    /// PSH with a number: the number is pushed.
    pub fn inst_psh_value(&mut self, instruction: &Instruction) -> (result: Result<(), VcpuFault>)
        ensures
            steps(final(self)@, result, inst_psh_value_step(old(self)@, word_of(instruction))),
    {
        reveal(inst_psh_value_step);
        self.push(&instruction.data)?;
        self.advance()
    }

    /// PSH with a register: what the register holds is pushed.
    pub fn inst_psh_register(&mut self, instruction: &Instruction) -> (result: Result<(), VcpuFault>)
        ensures
            steps(final(self)@, result, inst_psh_register_step(old(self)@, word_of(instruction))),
    {
        reveal(inst_psh_register_step);
        let val = self.get_register(instruction.register)?;
        self.push(&val)?;
        self.advance()
    }

    /// PSH with an address: the byte at the address is pushed as a word.
    pub fn inst_psh_address(&mut self, instruction: &Instruction) -> (result: Result<(), VcpuFault>)
        ensures
            steps(final(self)@, result, inst_psh_address_step(old(self)@, word_of(instruction))),
    {
        reveal(inst_psh_address_step);
        let val = self.read(instruction.data)? as u16;
        self.push(&val)?;
        self.advance()
    }

    /// POP with a register: the word on top of the stack goes to the register.
    pub fn inst_pop_register(&mut self, instruction: &Instruction) -> (result: Result<(), VcpuFault>)
        ensures
            steps(final(self)@, result, inst_pop_register_step(old(self)@, word_of(instruction))),
    {
        reveal(inst_pop_register_step);
        let value = self.pop()?;
        self.set_register(instruction.register, value)?;
        self.advance()
    }

    /// POP without a register: the word on top of the stack is dropped.
    pub fn inst_ins_pop(&mut self, instruction: &Instruction) -> (result: Result<(), VcpuFault>)
        ensures
            steps(final(self)@, result, inst_ins_pop_step(old(self)@, word_of(instruction))),
    {
        reveal(inst_ins_pop_step);
        self.pop()?;
        self.advance()
    }

    /// LDS: the word at the address goes to the register.
    pub fn inst_ld_short(&mut self, instruction: &Instruction) -> (result: Result<(), VcpuFault>)
        ensures
            steps(final(self)@, result, inst_ld_short_step(old(self)@, word_of(instruction))),
    {
        reveal(inst_ld_short_step);
        let value = self.read_short(instruction.data)?;
        self.set_register(instruction.register, value)?;
        self.advance()
    }

    /// MOV with a register: what the second register holds goes to the first.
    pub fn inst_mov_register(&mut self, instruction: &Instruction) -> (result: Result<(), VcpuFault>)
        ensures
            steps(final(self)@, result, inst_mov_register_step(old(self)@, word_of(instruction))),
    {
        reveal(inst_mov_register_step);
        let value = self.get_register(low_byte(instruction.data))?;
        self.set_register(instruction.register, value)?;
        self.advance()
    }

    /// ST with an address: what the register holds goes to the word at the address.
    pub fn inst_st_address(&mut self, instruction: &Instruction) -> (result: Result<(), VcpuFault>)
        ensures
            steps(final(self)@, result, inst_st_address_step(old(self)@, word_of(instruction))),
    {
        reveal(inst_st_address_step);
        let value = self.get_register(instruction.register)?;
        self.write_short(instruction.data, value)?;
        self.advance()
    }

    /// STL with an address: the low byte of the register goes to the byte at the address.
    pub fn inst_stl_address(&mut self, instruction: &Instruction) -> (result: Result<(), VcpuFault>)
        ensures
            steps(final(self)@, result, inst_stl_address_step(old(self)@, word_of(instruction))),
    {
        reveal(inst_stl_address_step);
        let value = low_byte(self.get_register(instruction.register)?);
        self.write(instruction.data, value)?;
        self.advance()
    }

    /// STH with an address: the high byte of the register goes to the byte at the address.
    pub fn inst_sth_address(&mut self, instruction: &Instruction) -> (result: Result<(), VcpuFault>)
        ensures
            steps(final(self)@, result, inst_sth_address_step(old(self)@, word_of(instruction))),
    {
        reveal(inst_sth_address_step);
        let value = high_byte(self.get_register(instruction.register)?);
        self.write(instruction.data, value)?;
        self.advance()
    }

    /// ST with a register: what the first register holds goes to the word at the address that the second holds.
    pub fn inst_st_register(&mut self, instruction: &Instruction) -> (result: Result<(), VcpuFault>)
        ensures
            steps(final(self)@, result, inst_st_register_step(old(self)@, word_of(instruction))),
    {
        reveal(inst_st_register_step);
        let value = self.get_register(instruction.register)?;
        let addr = self.get_register(low_byte(instruction.data))?;
        self.write_short(addr, value)?;
        self.advance()
    }

    /// STL with a register: the low byte of the first register goes to the byte at the address that the second holds.
    pub fn inst_stl_register(&mut self, instruction: &Instruction) -> (result: Result<(), VcpuFault>)
        ensures
            steps(final(self)@, result, inst_stl_register_step(old(self)@, word_of(instruction))),
    {
        reveal(inst_stl_register_step);
        let value = low_byte(self.get_register(instruction.register)?);
        let addr = self.get_register(low_byte(instruction.data))?;
        self.write(addr, value)?;
        self.advance()
    }

    /// STH with a register: the high byte of the first register goes to the byte at the address that the second holds.
    pub fn inst_sth_register(&mut self, instruction: &Instruction) -> (result: Result<(), VcpuFault>)
        ensures
            steps(final(self)@, result, inst_sth_register_step(old(self)@, word_of(instruction))),
    {
        reveal(inst_sth_register_step);
        let value = high_byte(self.get_register(instruction.register)?);
        let addr = self.get_register(low_byte(instruction.data))?;
        self.write(addr, value)?;
        self.advance()
    }

    /// CMP with a register: the first register is compared with the second.
    pub fn inst_cmp_register(&mut self, instruction: &Instruction) -> (result: Result<(), VcpuFault>)
        ensures
            steps(final(self)@, result, inst_cmp_register_step(old(self)@, word_of(instruction))),
    {
        reveal(inst_cmp_register_step);
        let a = self.get_register(instruction.register)?;
        let b = self.get_register(low_byte(instruction.data))?;
        self.compare(a, b);
        self.advance()
    }

    /// CMP with a number: the register is compared with the number.
    pub fn inst_cmp_value(&mut self, instruction: &Instruction) -> (result: Result<(), VcpuFault>)
        ensures
            steps(final(self)@, result, inst_cmp_value_step(old(self)@, word_of(instruction))),
    {
        reveal(inst_cmp_value_step);
        let a = self.get_register(instruction.register)?;
        self.compare(a, instruction.data);
        self.advance()
    }

    /// BEQ: a jump where the flag for equal is set.
    pub fn inst_beq(&mut self, instruction: &Instruction) -> (result: Result<(), VcpuFault>)
        ensures
            steps(final(self)@, result, inst_beq_step(old(self)@, word_of(instruction))),
    {
        reveal(inst_beq_step);
        self.branch(flag_set(self.registers.flags, 0), instruction.data)
    }

    /// BGT: a jump where the flag for greater is set.
    pub fn inst_bgt(&mut self, instruction: &Instruction) -> (result: Result<(), VcpuFault>)
        ensures
            steps(final(self)@, result, inst_bgt_step(old(self)@, word_of(instruction))),
    {
        reveal(inst_bgt_step);
        self.branch(flag_set(self.registers.flags, 5), instruction.data)
    }

    /// BLT: a jump where the flag for less is set.
    pub fn inst_blt(&mut self, instruction: &Instruction) -> (result: Result<(), VcpuFault>)
        ensures
            steps(final(self)@, result, inst_blt_step(old(self)@, word_of(instruction))),
    {
        reveal(inst_blt_step);
        self.branch(flag_set(self.registers.flags, 6), instruction.data)
    }

    /// JMP: a jump.
    pub fn inst_jmp(&mut self, instruction: &Instruction) -> (result: Result<(), VcpuFault>)
        ensures
            steps(final(self)@, result, inst_jmp_step(old(self)@, word_of(instruction))),
    {
        reveal(inst_jmp_step);
        self.branch(true, instruction.data)
    }

    /// BOF: a jump where the flag for overflow is set.
    pub fn inst_bof(&mut self, instruction: &Instruction) -> (result: Result<(), VcpuFault>)
        ensures
            steps(final(self)@, result, inst_bof_step(old(self)@, word_of(instruction))),
    {
        reveal(inst_bof_step);
        self.branch(flag_set(self.registers.flags, 1), instruction.data)
    }

    /// BNE: a jump where the flag for equal is clear.
    pub fn inst_bne(&mut self, instruction: &Instruction) -> (result: Result<(), VcpuFault>)
        ensures
            steps(final(self)@, result, inst_bne_step(old(self)@, word_of(instruction))),
    {
        reveal(inst_bne_step);
        self.branch(!flag_set(self.registers.flags, 0), instruction.data)
    }

    /// ADD with a number: a fault where the sum does not fit a word.
    pub fn inst_add_value(&mut self, instruction: &Instruction) -> (result: Result<(), VcpuFault>)
        ensures
            steps(final(self)@, result, inst_add_value_step(old(self)@, word_of(instruction))),
    {
        reveal(inst_add_value_step);
        let a = self.get_register(instruction.register)?;
        let val = add_words(a, instruction.data)?;
        self.set_register(instruction.register, val)?;
        self.advance()
    }

    /// SUB with a number: a fault where the difference is below zero.
    pub fn inst_sub_value(&mut self, instruction: &Instruction) -> (result: Result<(), VcpuFault>)
        ensures
            steps(final(self)@, result, inst_sub_value_step(old(self)@, word_of(instruction))),
    {
        reveal(inst_sub_value_step);
        let a = self.get_register(instruction.register)?;
        let val = sub_words(a, instruction.data)?;
        self.set_register(instruction.register, val)?;
        self.advance()
    }

    /// ADD with a register.
    pub fn inst_add_register(&mut self, instruction: &Instruction) -> (result: Result<(), VcpuFault>)
        ensures
            steps(final(self)@, result, inst_add_register_step(old(self)@, word_of(instruction))),
    {
        reveal(inst_add_register_step);
        let a = self.get_register(instruction.register)?;
        let b = self.get_register(low_byte(instruction.data))?;
        let val = add_words(a, b)?;
        self.set_register(instruction.register, val)?;
        self.advance()
    }

    /// SUB with a register.
    pub fn inst_sub_register(&mut self, instruction: &Instruction) -> (result: Result<(), VcpuFault>)
        ensures
            steps(final(self)@, result, inst_sub_register_step(old(self)@, word_of(instruction))),
    {
        reveal(inst_sub_register_step);
        let a = self.get_register(instruction.register)?;
        let b = self.get_register(low_byte(instruction.data))?;
        let val = sub_words(a, b)?;
        self.set_register(instruction.register, val)?;
        self.advance()
    }

    /// CALL: the address of the next instruction is pushed, then a jump.
    pub fn inst_call(&mut self, instruction: &Instruction) -> (result: Result<(), VcpuFault>)
        ensures
            steps(final(self)@, result, inst_call_step(old(self)@, word_of(instruction))),
    {
        reveal(inst_call_step);
        reveal(inst_jmp_step);
        let back = add_words(self.registers.pc, 4)?;
        self.push(&back)?;
        self.inst_jmp(instruction)
    }

    /// RET: the word on top of the stack goes to the program counter.
    pub fn inst_ret(&mut self, instruction: &Instruction) -> (result: Result<(), VcpuFault>)
        ensures
            steps(final(self)@, result, inst_ret_step(old(self)@, word_of(instruction))),
    {
        reveal(inst_ret_step);
        let addr = self.pop()?;
        self.registers.pc = addr;
        Ok(())
    }

    /// HLT: the program counter goes behind the end of the program, which ends the run.
    pub fn inst_hlt(&mut self, instruction: &Instruction) -> (result: Result<(), VcpuFault>)
        ensures
            steps(final(self)@, result, inst_hlt_step(old(self)@, word_of(instruction))),
    {
        reveal(inst_hlt_step);
        let past = add_words(self.end_of_program, 1)?;
        self.registers.pc = past;
        Ok(())
    }

    /// NOP: the program counter moves on.
    pub fn inst_nop(&mut self, instruction: &Instruction) -> (result: Result<(), VcpuFault>)
        ensures
            steps(final(self)@, result, inst_nop_step(old(self)@, word_of(instruction))),
    {
        reveal(inst_nop_step);
        self.advance()
    }

}

} // verus!
