//! What each instruction does to the processor.
//!
//! Every routine here carries out one form of an instruction on a processor
//! whose instruction in flight has been fetched: `ir` holds its first two
//! bytes, `dr` its operand, `ad` the top of a twenty-bit address and `size`
//! its length. A routine goes step by step and stops at the first step that
//! fails, leaving the processor as the steps before it left it.

use super::opcode::Executor;
use crate::vcpu::cpu::{
    bit, byte_at, done, failed, word_at, CpuState, ExecutionFault, Fault, Flag, Flags, Step, CPU,
};
use crate::vcpu::device::{high_byte, low_byte, split_word};
use vstd::prelude::*;

verus! {

/// The fault of an instruction that names a register that does not exist.
pub open spec fn invalid_register() -> Fault {
    Fault::Execution(ExecutionFault::InvalidRegister)
}

/// Whether the processor is in the state in which `step` leaves it and the
/// routine has returned what `step` says it returns.
pub open spec fn agrees(state: CpuState, result: Result<(), Fault>, step: Step) -> bool {
    state == step.state && result == step.result()
}

/// The sum of two words, cut to a word.
pub open spec fn wrapped_sum(a: u16, b: u16) -> u16 {
    ((a + b) % 0x10000) as u16
}

/// The difference of two words, cut to a word.
pub open spec fn wrapped_difference(a: u16, b: u16) -> u16 {
    ((a - b) % 0x10000) as u16
}

/// The product of two words, cut to a word.
pub open spec fn wrapped_product(a: u16, b: u16) -> u16 {
    ((a * b) % 0x10000) as u16
}

/// A word shifted left by `by` bits; zero where `by` is sixteen or more.
pub open spec fn shifted_left(a: u16, by: u16) -> u16 {
    if by >= 16 {
        0
    } else {
        a << by
    }
}

/// A word shifted right by `by` bits; zero where `by` is sixteen or more.
pub open spec fn shifted_right(a: u16, by: u16) -> u16 {
    if by >= 16 {
        0
    } else {
        a >> by
    }
}

impl CpuState {
    /// The processor after a comparison of `a` with `b`: of the flags Z, L
    /// and G exactly the one is set that says how `a` stands to `b`.
    pub open spec fn compared(self, a: u16, b: u16) -> CpuState {
        CpuState { flags: Flags { z: a == b, l: a < b, g: a > b, ..self.flags }, ..self }
    }

    /// The processor with the flag O set or cleared.
    pub open spec fn overflowed(self, overflow: bool) -> CpuState {
        CpuState { flags: Flags { o: overflow, ..self.flags }, ..self }
    }

    /// The processor after a pop into the register with the number `reg`.
    pub open spec fn popped_into(self, reg: u8) -> Step {
        let popped = self.popped();
        if popped.fault is Some {
            popped
        } else {
            popped.state.stored(reg, self.top())
        }
    }

    /// The word at `addr` of the bus goes to the register that the
    /// instruction names, then the program counter moves on.
    pub open spec fn loaded(self, addr: u32) -> Step {
        match word_at(self.bus, addr) {
            Ok(value) => self.stored(self.dest(), value).advanced(),
            Err(fault) => failed(self, fault),
        }
    }

    /// The byte at `addr` of the bus goes to the register that the
    /// instruction names, its high byte zero, then the program counter moves
    /// on.
    pub open spec fn loaded_byte(self, addr: u32) -> Step {
        match byte_at(self.bus, addr) {
            Ok(value) => self.stored(self.dest(), value as u16).advanced(),
            Err(fault) => failed(self, fault),
        }
    }

    /// A jump to the target of the instruction where `taken` holds, else the
    /// program counter moves on.
    pub open spec fn branched(self, taken: bool) -> Step {
        if taken {
            done(CpuState { pc: self.target(), ..self })
        } else {
            self.advanced()
        }
    }

    /// The register that the instruction names takes `value`, the flag O
    /// takes `overflow`, and the program counter moves on.
    pub open spec fn computed(self, value: u16, overflow: bool) -> Step {
        self.overflowed(overflow).stored(self.dest(), value).advanced()
    }

    /// The registers R1 to R6, the flags and the address of the instruction
    /// after the one in flight are pushed, in that order.
    #[verifier::opaque]
    pub open spec fn registers_pushed(self) -> Step {
        let saved = self.pushed(self.r1).pushed(self.r2).pushed(self.r3).pushed(self.r4).pushed(
            self.r5,
        ).pushed(self.r6).pushed(self.flags.word() as u16);
        if saved.fault is Some {
            saved
        } else if self.pc + self.size > 0xFFFF {
            failed(saved.state, Fault::Execution(ExecutionFault::ProgramCounterOverflow))
        } else {
            saved.pushed((self.pc + self.size) as u16)
        }
    }

    /// The program counter, the flags and the registers R6 to R1 are popped,
    /// in that order.
    #[verifier::opaque]
    pub open spec fn registers_popped(self) -> Step {
        let jumped = self.popped_into(6);
        if jumped.fault is Some {
            jumped
        } else {
            let popped = jumped.state.popped();
            if popped.fault is Some {
                popped
            } else {
                match Flags::of_word(jumped.state.top() as int) {
                    None => failed(popped.state, Fault::Execution(ExecutionFault::InvalidFlags)),
                    Some(flags) => done(CpuState { flags, ..popped.state }).popped_into(
                        5,
                    ).popped_into(4).popped_into(3).popped_into(2).popped_into(1).popped_into(0),
                }
            }
        }
    }

    /// The interrupt with the number `number` is entered where its vector,
    /// the word at twice that number, is not zero: the registers are pushed
    /// and the program counter takes the vector. `None` where the vector is
    /// zero.
    #[verifier::opaque]
    pub open spec fn interrupted(self, number: u8) -> Option<Step> {
        match word_at(self.bus, (number * 2) as u32) {
            Err(fault) => Some(failed(self, fault)),
            Ok(vector) => if vector == 0 {
                None
            } else {
                let pushed = self.registers_pushed();
                if pushed.fault is Some {
                    Some(pushed)
                } else {
                    Some(done(CpuState { pc: vector, ..pushed.state }))
                }
            },
        }
    }
}

impl Step {
    /// The step, followed by a pop into the register with the number `reg`.
    pub open spec fn popped_into(self, reg: u8) -> Step {
        if self.fault is Some {
            self
        } else {
            self.state.popped_into(reg)
        }
    }
}

/// MOV with a number: the number goes to the register.
#[verifier::opaque]
pub open spec fn mov_immediate_step(cpu: CpuState) -> Step {
    cpu.stored(cpu.dest(), cpu.dr).advanced()
}

/// MOV with a register: what the second register holds goes to the first.
#[verifier::opaque]
pub open spec fn mov_register_step(cpu: CpuState) -> Step {
    if cpu.source() > 8 {
        failed(cpu, invalid_register())
    } else {
        cpu.stored(cpu.dest(), cpu.register(cpu.source())).advanced()
    }
}

/// LD with a register: the word at the address that the second register
/// holds goes to the first.
#[verifier::opaque]
pub open spec fn ld_register_step(cpu: CpuState) -> Step {
    if cpu.source() > 8 {
        failed(cpu, invalid_register())
    } else {
        cpu.loaded(cpu.register(cpu.source()) as u32)
    }
}

/// LD with an address: the word at the address goes to the register.
#[verifier::opaque]
pub open spec fn ld_address_step(cpu: CpuState) -> Step {
    cpu.loaded(cpu.address())
}

/// LDB with a register: the byte at the address that the second register
/// holds goes to the first.
#[verifier::opaque]
pub open spec fn ldb_register_step(cpu: CpuState) -> Step {
    if cpu.source() > 8 {
        failed(cpu, invalid_register())
    } else {
        cpu.loaded_byte(cpu.register(cpu.source()) as u32)
    }
}

/// LDB with an address: the byte at the address goes to the register.
#[verifier::opaque]
pub open spec fn ldb_address_step(cpu: CpuState) -> Step {
    cpu.loaded_byte(cpu.address())
}

/// PSH with a number: the number is pushed.
#[verifier::opaque]
pub open spec fn psh_immediate_step(cpu: CpuState) -> Step {
    cpu.pushed(cpu.dr).advanced()
}

/// PSH with a register: what the register holds is pushed.
#[verifier::opaque]
pub open spec fn psh_register_step(cpu: CpuState) -> Step {
    if cpu.dest() > 8 {
        failed(cpu, invalid_register())
    } else {
        cpu.pushed(cpu.register(cpu.dest())).advanced()
    }
}

/// PSH with an address: the word at the address is pushed.
#[verifier::opaque]
pub open spec fn psh_address_step(cpu: CpuState) -> Step {
    match word_at(cpu.bus, cpu.address()) {
        Ok(value) => cpu.pushed(value).advanced(),
        Err(fault) => failed(cpu, fault),
    }
}

/// POP without an operand: the stack pointer moves down by two.
#[verifier::opaque]
pub open spec fn pop_step(cpu: CpuState) -> Step {
    if cpu.sp < 2 {
        failed(cpu, Fault::Execution(ExecutionFault::StackUnderflow))
    } else {
        (CpuState { sp: (cpu.sp - 2) as u16, ..cpu }).advanced()
    }
}

/// POP with a register: the word on top of the stack goes to the register.
#[verifier::opaque]
pub open spec fn pop_register_step(cpu: CpuState) -> Step {
    cpu.popped_into(cpu.dest()).advanced()
}

/// ST with a register: what the first register holds goes to the word at the
/// address that the second holds.
#[verifier::opaque]
pub open spec fn st_register_step(cpu: CpuState) -> Step {
    if cpu.dest() > 8 || cpu.source() > 8 {
        failed(cpu, invalid_register())
    } else {
        cpu.written(cpu.register(cpu.source()) as u32, cpu.register(cpu.dest())).advanced()
    }
}

/// ST with an address: what the register holds goes to the word at the
/// address.
#[verifier::opaque]
pub open spec fn st_address_step(cpu: CpuState) -> Step {
    if cpu.dest() > 8 {
        failed(cpu, invalid_register())
    } else {
        cpu.written(cpu.address(), cpu.register(cpu.dest())).advanced()
    }
}

/// STL with a register: the low byte of the first register goes to the byte
/// at the address that the second holds.
#[verifier::opaque]
pub open spec fn stl_register_step(cpu: CpuState) -> Step {
    if cpu.dest() > 8 || cpu.source() > 8 {
        failed(cpu, invalid_register())
    } else {
        cpu.written_byte(
            cpu.register(cpu.source()) as u32,
            low_byte(cpu.register(cpu.dest())),
        ).advanced()
    }
}

/// STL with an address: the low byte of the register goes to the byte at the
/// address.
#[verifier::opaque]
pub open spec fn stl_address_step(cpu: CpuState) -> Step {
    if cpu.dest() > 8 {
        failed(cpu, invalid_register())
    } else {
        cpu.written_byte(cpu.address(), low_byte(cpu.register(cpu.dest()))).advanced()
    }
}

/// STH with a register: the high byte of the first register goes to the byte
/// at the address that the second holds.
#[verifier::opaque]
pub open spec fn sth_register_step(cpu: CpuState) -> Step {
    if cpu.dest() > 8 || cpu.source() > 8 {
        failed(cpu, invalid_register())
    } else {
        cpu.written_byte(
            cpu.register(cpu.source()) as u32,
            high_byte(cpu.register(cpu.dest())),
        ).advanced()
    }
}

/// STH with an address: the high byte of the register goes to the byte at
/// the address.
#[verifier::opaque]
pub open spec fn sth_address_step(cpu: CpuState) -> Step {
    if cpu.dest() > 8 {
        failed(cpu, invalid_register())
    } else {
        cpu.written_byte(cpu.address(), high_byte(cpu.register(cpu.dest()))).advanced()
    }
}

/// CMP with a number: the register is compared with the number.
#[verifier::opaque]
pub open spec fn cmp_immediate_step(cpu: CpuState) -> Step {
    if cpu.dest() > 8 {
        failed(cpu, invalid_register())
    } else {
        cpu.compared(cpu.register(cpu.dest()), cpu.dr).advanced()
    }
}

/// CMP with a register: the first register is compared with the second.
#[verifier::opaque]
pub open spec fn cmp_register_step(cpu: CpuState) -> Step {
    if cpu.dest() > 8 || cpu.source() > 8 {
        failed(cpu, invalid_register())
    } else {
        cpu.compared(cpu.register(cpu.dest()), cpu.register(cpu.source())).advanced()
    }
}

/// BEQ: a jump where the flag Z is set.
#[verifier::opaque]
pub open spec fn beq_step(cpu: CpuState) -> Step {
    cpu.branched(cpu.flags.z)
}

/// BGT: a jump where the flag G is set.
#[verifier::opaque]
pub open spec fn bgt_step(cpu: CpuState) -> Step {
    cpu.branched(cpu.flags.g)
}

/// BLT: a jump where the flag L is set.
#[verifier::opaque]
pub open spec fn blt_step(cpu: CpuState) -> Step {
    cpu.branched(cpu.flags.l)
}

/// BOF: a jump where the flag O is set.
#[verifier::opaque]
pub open spec fn bof_step(cpu: CpuState) -> Step {
    cpu.branched(cpu.flags.o)
}

/// BNE: a jump where the flag Z is clear.
#[verifier::opaque]
pub open spec fn bne_step(cpu: CpuState) -> Step {
    cpu.branched(!cpu.flags.z)
}

/// BGE: a jump where the flag G or the flag Z is set.
#[verifier::opaque]
pub open spec fn bge_step(cpu: CpuState) -> Step {
    cpu.branched(cpu.flags.g || cpu.flags.z)
}

/// BLE: a jump where the flag L or the flag Z is set.
#[verifier::opaque]
pub open spec fn ble_step(cpu: CpuState) -> Step {
    cpu.branched(cpu.flags.l || cpu.flags.z)
}

/// JMP: a jump.
#[verifier::opaque]
pub open spec fn jmp_step(cpu: CpuState) -> Step {
    cpu.branched(true)
}

/// JSR: the address of the next instruction is pushed, then a jump.
#[verifier::opaque]
pub open spec fn jsr_step(cpu: CpuState) -> Step {
    if cpu.pc + cpu.size > 0xFFFF {
        failed(cpu, Fault::Execution(ExecutionFault::ProgramCounterOverflow))
    } else {
        let pushed = cpu.pushed((cpu.pc + cpu.size) as u16);
        if pushed.fault is Some {
            pushed
        } else {
            done(CpuState { pc: cpu.target(), ..pushed.state })
        }
    }
}

/// ADD of `operand` to the register: the sum wraps around, and the flag O
/// says whether it did.
pub open spec fn add_with(cpu: CpuState, operand: u16) -> Step {
    if cpu.dest() > 8 {
        failed(cpu, invalid_register())
    } else {
        let a = cpu.register(cpu.dest());
        cpu.computed(wrapped_sum(a, operand), a + operand > 0xFFFF)
    }
}

/// SUB of `operand` from the register: the difference wraps around, and the
/// flag O says whether it did.
pub open spec fn sub_with(cpu: CpuState, operand: u16) -> Step {
    if cpu.dest() > 8 {
        failed(cpu, invalid_register())
    } else {
        let a = cpu.register(cpu.dest());
        cpu.computed(wrapped_difference(a, operand), a < operand)
    }
}

/// MUL of the register by `operand`: the product wraps around, and the flag
/// O says whether it did.
pub open spec fn mul_with(cpu: CpuState, operand: u16) -> Step {
    if cpu.dest() > 8 {
        failed(cpu, invalid_register())
    } else {
        let a = cpu.register(cpu.dest());
        cpu.computed(wrapped_product(a, operand), a * operand > 0xFFFF)
    }
}

/// MOD of the register by `operand`: the remainder; a fault where `operand`
/// is zero.
pub open spec fn mod_with(cpu: CpuState, operand: u16) -> Step {
    if cpu.dest() > 8 {
        failed(cpu, invalid_register())
    } else if operand == 0 {
        failed(cpu, Fault::Execution(ExecutionFault::DivisionByZero))
    } else {
        cpu.stored(cpu.dest(), (cpu.register(cpu.dest()) % operand) as u16).advanced()
    }
}

/// AND of the register with `operand`, bit by bit.
pub open spec fn and_with(cpu: CpuState, operand: u16) -> Step {
    if cpu.dest() > 8 {
        failed(cpu, invalid_register())
    } else {
        cpu.stored(cpu.dest(), cpu.register(cpu.dest()) & operand).advanced()
    }
}

/// OR of the register with `operand`, bit by bit.
pub open spec fn or_with(cpu: CpuState, operand: u16) -> Step {
    if cpu.dest() > 8 {
        failed(cpu, invalid_register())
    } else {
        cpu.stored(cpu.dest(), cpu.register(cpu.dest()) | operand).advanced()
    }
}

/// XOR of the register with `operand`, bit by bit.
pub open spec fn xor_with(cpu: CpuState, operand: u16) -> Step {
    if cpu.dest() > 8 {
        failed(cpu, invalid_register())
    } else {
        cpu.stored(cpu.dest(), cpu.register(cpu.dest()) ^ operand).advanced()
    }
}

/// LSH of the register by `operand` bits.
pub open spec fn lsh_with(cpu: CpuState, operand: u16) -> Step {
    if cpu.dest() > 8 {
        failed(cpu, invalid_register())
    } else {
        cpu.stored(cpu.dest(), shifted_left(cpu.register(cpu.dest()), operand)).advanced()
    }
}

/// RSH of the register by `operand` bits.
pub open spec fn rsh_with(cpu: CpuState, operand: u16) -> Step {
    if cpu.dest() > 8 {
        failed(cpu, invalid_register())
    } else {
        cpu.stored(cpu.dest(), shifted_right(cpu.register(cpu.dest()), operand)).advanced()
    }
}

/// ADD with a number.
#[verifier::opaque]
pub open spec fn add_immediate_step(cpu: CpuState) -> Step {
    add_with(cpu, cpu.dr)
}

/// ADD with a register.
#[verifier::opaque]
pub open spec fn add_register_step(cpu: CpuState) -> Step {
    if cpu.dest() > 8 || cpu.source() > 8 {
        failed(cpu, invalid_register())
    } else {
        add_with(cpu, cpu.register(cpu.source()))
    }
}

/// SUB with a number.
#[verifier::opaque]
pub open spec fn sub_immediate_step(cpu: CpuState) -> Step {
    sub_with(cpu, cpu.dr)
}

/// SUB with a register.
#[verifier::opaque]
pub open spec fn sub_register_step(cpu: CpuState) -> Step {
    if cpu.dest() > 8 || cpu.source() > 8 {
        failed(cpu, invalid_register())
    } else {
        sub_with(cpu, cpu.register(cpu.source()))
    }
}

/// MUL with a number.
#[verifier::opaque]
pub open spec fn mul_immediate_step(cpu: CpuState) -> Step {
    mul_with(cpu, cpu.dr)
}

/// MUL with a register.
#[verifier::opaque]
pub open spec fn mul_register_step(cpu: CpuState) -> Step {
    if cpu.dest() > 8 || cpu.source() > 8 {
        failed(cpu, invalid_register())
    } else {
        mul_with(cpu, cpu.register(cpu.source()))
    }
}

/// MOD with a number.
#[verifier::opaque]
pub open spec fn mod_immediate_step(cpu: CpuState) -> Step {
    mod_with(cpu, cpu.dr)
}

/// MOD with a register.
#[verifier::opaque]
pub open spec fn mod_register_step(cpu: CpuState) -> Step {
    if cpu.dest() > 8 || cpu.source() > 8 {
        failed(cpu, invalid_register())
    } else {
        mod_with(cpu, cpu.register(cpu.source()))
    }
}

/// AND with a number.
#[verifier::opaque]
pub open spec fn and_immediate_step(cpu: CpuState) -> Step {
    and_with(cpu, cpu.dr)
}

/// AND with a register.
#[verifier::opaque]
pub open spec fn and_register_step(cpu: CpuState) -> Step {
    if cpu.dest() > 8 || cpu.source() > 8 {
        failed(cpu, invalid_register())
    } else {
        and_with(cpu, cpu.register(cpu.source()))
    }
}

/// OR with a number.
#[verifier::opaque]
pub open spec fn or_immediate_step(cpu: CpuState) -> Step {
    or_with(cpu, cpu.dr)
}

/// OR with a register.
#[verifier::opaque]
pub open spec fn or_register_step(cpu: CpuState) -> Step {
    if cpu.dest() > 8 || cpu.source() > 8 {
        failed(cpu, invalid_register())
    } else {
        or_with(cpu, cpu.register(cpu.source()))
    }
}

/// XOR with a number.
#[verifier::opaque]
pub open spec fn xor_immediate_step(cpu: CpuState) -> Step {
    xor_with(cpu, cpu.dr)
}

/// XOR with a register.
#[verifier::opaque]
pub open spec fn xor_register_step(cpu: CpuState) -> Step {
    if cpu.dest() > 8 || cpu.source() > 8 {
        failed(cpu, invalid_register())
    } else {
        xor_with(cpu, cpu.register(cpu.source()))
    }
}

/// LSH with a number.
#[verifier::opaque]
pub open spec fn lsh_immediate_step(cpu: CpuState) -> Step {
    lsh_with(cpu, cpu.dr)
}

/// LSH with a register.
#[verifier::opaque]
pub open spec fn lsh_register_step(cpu: CpuState) -> Step {
    if cpu.dest() > 8 || cpu.source() > 8 {
        failed(cpu, invalid_register())
    } else {
        lsh_with(cpu, cpu.register(cpu.source()))
    }
}

/// RSH with a number.
#[verifier::opaque]
pub open spec fn rsh_immediate_step(cpu: CpuState) -> Step {
    rsh_with(cpu, cpu.dr)
}

/// RSH with a register.
#[verifier::opaque]
pub open spec fn rsh_register_step(cpu: CpuState) -> Step {
    if cpu.dest() > 8 || cpu.source() > 8 {
        failed(cpu, invalid_register())
    } else {
        rsh_with(cpu, cpu.register(cpu.source()))
    }
}

/// RET: the word on top of the stack goes to the program counter.
#[verifier::opaque]
pub open spec fn ret_step(cpu: CpuState) -> Step {
    cpu.popped_into(6)
}

/// INT: the interrupt whose number is the low byte of the operand is entered;
/// where its vector is zero, the program counter moves on.
#[verifier::opaque]
pub open spec fn int_immediate_step(cpu: CpuState) -> Step {
    match cpu.interrupted(cpu.source()) {
        Some(step) => step,
        None => cpu.advanced(),
    }
}

/// REI: the registers that entering an interrupt pushed are popped.
#[verifier::opaque]
pub open spec fn rei_step(cpu: CpuState) -> Step {
    cpu.registers_popped()
}

/// HLT: the processor stops running.
#[verifier::opaque]
pub open spec fn hlt_step(cpu: CpuState) -> Step {
    done(CpuState { running: false, ..cpu })
}

/// NOP: the program counter moves on.
#[verifier::opaque]
pub open spec fn nop_step(cpu: CpuState) -> Step {
    cpu.advanced()
}

/// What the routine `executor` does to the processor.
#[verifier::opaque]
pub open spec fn execute_step(cpu: CpuState, executor: Executor) -> Step {
    match executor {
        Executor::MovImmediate => mov_immediate_step(cpu),
        Executor::MovRegister => mov_register_step(cpu),
        Executor::LdRegister => ld_register_step(cpu),
        Executor::LdAddress => ld_address_step(cpu),
        Executor::LdbRegister => ldb_register_step(cpu),
        Executor::LdbAddress => ldb_address_step(cpu),
        Executor::PshImmediate => psh_immediate_step(cpu),
        Executor::PshRegister => psh_register_step(cpu),
        Executor::PshAddress => psh_address_step(cpu),
        Executor::PopRegister => pop_register_step(cpu),
        Executor::Pop => pop_step(cpu),
        Executor::StRegister => st_register_step(cpu),
        Executor::StAddress => st_address_step(cpu),
        Executor::StlRegister => stl_register_step(cpu),
        Executor::StlAddress => stl_address_step(cpu),
        Executor::SthRegister => sth_register_step(cpu),
        Executor::SthAddress => sth_address_step(cpu),
        Executor::CmpImmediate => cmp_immediate_step(cpu),
        Executor::CmpRegister => cmp_register_step(cpu),
        Executor::Beq => beq_step(cpu),
        Executor::Bgt => bgt_step(cpu),
        Executor::Blt => blt_step(cpu),
        Executor::Bof => bof_step(cpu),
        Executor::Bne => bne_step(cpu),
        Executor::Jmp => jmp_step(cpu),
        Executor::Jsr => jsr_step(cpu),
        Executor::AddImmediate => add_immediate_step(cpu),
        Executor::AddRegister => add_register_step(cpu),
        Executor::SubImmediate => sub_immediate_step(cpu),
        Executor::SubRegister => sub_register_step(cpu),
        Executor::Ret => ret_step(cpu),
        Executor::IntImmediate => int_immediate_step(cpu),
        Executor::Rei => rei_step(cpu),
        Executor::AndImmediate => and_immediate_step(cpu),
        Executor::AndRegister => and_register_step(cpu),
        Executor::OrImmediate => or_immediate_step(cpu),
        Executor::OrRegister => or_register_step(cpu),
        Executor::XorImmediate => xor_immediate_step(cpu),
        Executor::XorRegister => xor_register_step(cpu),
        Executor::LshImmediate => lsh_immediate_step(cpu),
        Executor::LshRegister => lsh_register_step(cpu),
        Executor::RshImmediate => rsh_immediate_step(cpu),
        Executor::RshRegister => rsh_register_step(cpu),
        Executor::MulImmediate => mul_immediate_step(cpu),
        Executor::MulRegister => mul_register_step(cpu),
        Executor::ModImmediate => mod_immediate_step(cpu),
        Executor::ModRegister => mod_register_step(cpu),
        Executor::Bge => bge_step(cpu),
        Executor::Ble => ble_step(cpu),
        Executor::Hlt => hlt_step(cpu),
        Executor::Nop => nop_step(cpu),
    }
}

/// A comparison sets exactly one of the flags Z, L and G: Z where the operands
/// are equal, L where the first is the smaller one, G where it is the greater
/// one. It leaves the flags O and D and all else as they were.
pub proof fn lemma_compare_sets_one_flag(cpu: CpuState, a: u16, b: u16)
    ensures
        bit(cpu.compared(a, b).flags.z) + bit(cpu.compared(a, b).flags.l) + bit(
            cpu.compared(a, b).flags.g,
        ) == 1,
        cpu.compared(a, b).flags.z <==> a == b,
        cpu.compared(a, b).flags.l <==> a < b,
        cpu.compared(a, b).flags.g <==> a > b,
        cpu.compared(a, b).flags.o == cpu.flags.o,
        cpu.compared(a, b).flags.d == cpu.flags.d,
        cpu.compared(a, b) == (CpuState { flags: cpu.compared(a, b).flags, ..cpu }),
{
}

/// Compares `val1` with `val2` and leaves the outcome in the flags: Z where
/// they are equal, L where the first is smaller, G where it is greater. Of the
/// three flags exactly one is set afterwards; the flags O and D stay.
pub fn compare(cpu: &mut CPU, val1: u16, val2: u16)
    ensures
        final(cpu)@ == old(cpu)@.compared(val1, val2),
        final(cpu).flags.z <==> val1 == val2,
        final(cpu).flags.l <==> val1 < val2,
        final(cpu).flags.g <==> val1 > val2,
        bit(final(cpu).flags.z) + bit(final(cpu).flags.l) + bit(final(cpu).flags.g) == 1,
{
    cpu.flags.set(Flag::Z, false);
    cpu.flags.set(Flag::L, false);
    cpu.flags.set(Flag::G, false);
    if val1 == val2 {
        cpu.flags.set(Flag::Z, true);
    }
    if val1 < val2 {
        cpu.flags.set(Flag::L, true);
    }
    if val1 > val2 {
        cpu.flags.set(Flag::G, true);
    }
}

/// Jumps where `flag` is set, else moves the program counter on.
pub fn branch_flag_set(cpu: &mut CPU, flag: Flag) -> (result: Result<(), Fault>)
    ensures
        agrees(final(cpu)@, result, old(cpu)@.branched(old(cpu).flags.has(flag))),
{
    if cpu.flags.contains(flag) {
        cpu.pc = cpu.target();
        return Ok(());
    }
    cpu.advance()
}

/// Jumps where `flag` is clear, else moves the program counter on.
pub fn branch_flag_not_set(cpu: &mut CPU, flag: Flag) -> (result: Result<(), Fault>)
    ensures
        agrees(final(cpu)@, result, old(cpu)@.branched(!old(cpu).flags.has(flag))),
{
    if !cpu.flags.contains(flag) {
        cpu.pc = cpu.target();
        return Ok(());
    }
    cpu.advance()
}

/// Jumps where one of the two flags is set, else moves the program counter
/// on.
pub fn branch_either_flag_set(cpu: &mut CPU, first: Flag, second: Flag) -> (result: Result<
    (),
    Fault,
>)
    ensures
        agrees(
            final(cpu)@,
            result,
            old(cpu)@.branched(old(cpu).flags.has(first) || old(cpu).flags.has(second)),
        ),
{
    if cpu.flags.contains(first) || cpu.flags.contains(second) {
        cpu.pc = cpu.target();
        return Ok(());
    }
    cpu.advance()
}

/// The sum of two words, wrapped around; the flag O says whether it wrapped.
pub fn add(cpu: &mut CPU, val1: u16, val2: u16) -> (sum: u16)
    ensures
        sum == wrapped_sum(val1, val2),
        final(cpu)@ == old(cpu)@.overflowed(val1 + val2 > 0xFFFF),
{
    let total = val1 as u32 + val2 as u32;
    cpu.flags.set(Flag::O, total > 0xFFFF);
    (total % 0x10000) as u16
}

/// The difference of two words, wrapped around; the flag O says whether it
/// wrapped.
pub fn sub(cpu: &mut CPU, val1: u16, val2: u16) -> (difference: u16)
    ensures
        difference == wrapped_difference(val1, val2),
        final(cpu)@ == old(cpu)@.overflowed(val1 < val2),
{
    cpu.flags.set(Flag::O, val1 < val2);
    if val1 >= val2 {
        val1 - val2
    } else {
        (val1 as u32 + 0x10000 - val2 as u32) as u16
    }
}

/// The product of two words, wrapped around; the flag O says whether it
/// wrapped.
pub fn mul(cpu: &mut CPU, val1: u16, val2: u16) -> (product: u16)
    ensures
        product == wrapped_product(val1, val2),
        final(cpu)@ == old(cpu)@.overflowed(val1 * val2 > 0xFFFF),
{
    assert(val1 * val2 <= 0xFFFF * 0xFFFF) by (nonlinear_arith)
        requires
            val1 <= 0xFFFF,
            val2 <= 0xFFFF,
    ;
    let total = val1 as u32 * val2 as u32;
    cpu.flags.set(Flag::O, total > 0xFFFF);
    (total % 0x10000) as u16
}

/// A word shifted left by `by` bits; zero where `by` is sixteen or more.
pub fn shift_left(value: u16, by: u16) -> (shifted: u16)
    ensures
        shifted == shifted_left(value, by),
{
    if by >= 16 {
        0
    } else {
        value << by
    }
}

/// A word shifted right by `by` bits; zero where `by` is sixteen or more.
pub fn shift_right(value: u16, by: u16) -> (shifted: u16)
    ensures
        shifted == shifted_right(value, by),
{
    if by >= 16 {
        0
    } else {
        value >> by
    }
}

/// MOV with a number.
pub fn mov_immediate(cpu: &mut CPU) -> (result: Result<(), Fault>)
    ensures
        agrees(final(cpu)@, result, mov_immediate_step(old(cpu)@)),
{
    reveal(mov_immediate_step);
    let register = cpu.dest();
    cpu.store(register, cpu.dr)?;
    cpu.advance()
}

/// MOV with a register.
pub fn mov_register(cpu: &mut CPU) -> (result: Result<(), Fault>)
    ensures
        agrees(final(cpu)@, result, mov_register_step(old(cpu)@)),
{
    reveal(mov_register_step);
    let value = cpu.register(cpu.source())?;
    cpu.store(cpu.dest(), value)?;
    cpu.advance()
}

/// LD with a register.
pub fn ld_register(cpu: &mut CPU) -> (result: Result<(), Fault>)
    ensures
        agrees(final(cpu)@, result, ld_register_step(old(cpu)@)),
{
    reveal(ld_register_step);
    let address = cpu.register(cpu.source())?;
    let res = cpu.read_word(address as u32)?;
    cpu.store(cpu.dest(), res)?;
    cpu.advance()
}

/// LD with an address.
pub fn ld_address(cpu: &mut CPU) -> (result: Result<(), Fault>)
    ensures
        agrees(final(cpu)@, result, ld_address_step(old(cpu)@)),
{
    reveal(ld_address_step);
    let address = cpu.address();
    let res = cpu.read_word(address)?;
    cpu.store(cpu.dest(), res)?;
    cpu.advance()
}

/// LDB with a register.
pub fn ldb_register(cpu: &mut CPU) -> (result: Result<(), Fault>)
    ensures
        agrees(final(cpu)@, result, ldb_register_step(old(cpu)@)),
{
    reveal(ldb_register_step);
    let address = cpu.register(cpu.source())?;
    let res = cpu.read_byte(address as u32)?;
    cpu.store(cpu.dest(), res as u16)?;
    cpu.advance()
}

/// LDB with an address.
pub fn ldb_address(cpu: &mut CPU) -> (result: Result<(), Fault>)
    ensures
        agrees(final(cpu)@, result, ldb_address_step(old(cpu)@)),
{
    reveal(ldb_address_step);
    let address = cpu.address();
    let res = cpu.read_byte(address)?;
    cpu.store(cpu.dest(), res as u16)?;
    cpu.advance()
}

/// PSH with a number.
pub fn psh_immediate(cpu: &mut CPU) -> (result: Result<(), Fault>)
    ensures
        agrees(final(cpu)@, result, psh_immediate_step(old(cpu)@)),
{
    reveal(psh_immediate_step);
    cpu.push(cpu.dr)?;
    cpu.advance()
}

/// PSH with a register.
pub fn psh_register(cpu: &mut CPU) -> (result: Result<(), Fault>)
    ensures
        agrees(final(cpu)@, result, psh_register_step(old(cpu)@)),
{
    reveal(psh_register_step);
    let value = cpu.register(cpu.dest())?;
    cpu.push(value)?;
    cpu.advance()
}

/// PSH with an address.
pub fn psh_address(cpu: &mut CPU) -> (result: Result<(), Fault>)
    ensures
        agrees(final(cpu)@, result, psh_address_step(old(cpu)@)),
{
    reveal(psh_address_step);
    let address = cpu.address();
    let value = cpu.read_word(address)?;
    cpu.push(value)?;
    cpu.advance()
}

/// POP without an operand.
pub fn pop(cpu: &mut CPU) -> (result: Result<(), Fault>)
    ensures
        agrees(final(cpu)@, result, pop_step(old(cpu)@)),
{
    reveal(pop_step);
    if cpu.sp < 2 {
        return Err(Fault::Execution(ExecutionFault::StackUnderflow));
    }
    cpu.sp -= 2;
    cpu.advance()
}

/// POP with a register.
pub fn pop_register(cpu: &mut CPU) -> (result: Result<(), Fault>)
    ensures
        agrees(final(cpu)@, result, pop_register_step(old(cpu)@)),
{
    reveal(pop_register_step);
    let register = cpu.dest();
    let value = cpu.pop()?;
    cpu.store(register, value)?;
    cpu.advance()
}

/// ST with a register.
pub fn st_register(cpu: &mut CPU) -> (result: Result<(), Fault>)
    ensures
        agrees(final(cpu)@, result, st_register_step(old(cpu)@)),
{
    reveal(st_register_step);
    let value = cpu.register(cpu.dest())?;
    let address = cpu.register(cpu.source())? as u32;
    cpu.write_word(address, value)?;
    cpu.advance()
}

/// ST with an address.
pub fn st_address(cpu: &mut CPU) -> (result: Result<(), Fault>)
    ensures
        agrees(final(cpu)@, result, st_address_step(old(cpu)@)),
{
    reveal(st_address_step);
    let value = cpu.register(cpu.dest())?;
    let address = cpu.address();
    cpu.write_word(address, value)?;
    cpu.advance()
}

/// STL with a register.
pub fn stl_register(cpu: &mut CPU) -> (result: Result<(), Fault>)
    ensures
        agrees(final(cpu)@, result, stl_register_step(old(cpu)@)),
{
    reveal(stl_register_step);
    let value = split_word(cpu.register(cpu.dest())?).1;
    let address = cpu.register(cpu.source())? as u32;
    cpu.write_byte(address, value)?;
    cpu.advance()
}

/// STL with an address.
pub fn stl_address(cpu: &mut CPU) -> (result: Result<(), Fault>)
    ensures
        agrees(final(cpu)@, result, stl_address_step(old(cpu)@)),
{
    reveal(stl_address_step);
    let value = split_word(cpu.register(cpu.dest())?).1;
    let address = cpu.address();
    cpu.write_byte(address, value)?;
    cpu.advance()
}

/// STH with a register.
pub fn sth_register(cpu: &mut CPU) -> (result: Result<(), Fault>)
    ensures
        agrees(final(cpu)@, result, sth_register_step(old(cpu)@)),
{
    reveal(sth_register_step);
    let value = split_word(cpu.register(cpu.dest())?).0;
    let address = cpu.register(cpu.source())? as u32;
    cpu.write_byte(address, value)?;
    cpu.advance()
}

/// STH with an address.
pub fn sth_address(cpu: &mut CPU) -> (result: Result<(), Fault>)
    ensures
        agrees(final(cpu)@, result, sth_address_step(old(cpu)@)),
{
    reveal(sth_address_step);
    let value = split_word(cpu.register(cpu.dest())?).0;
    let address = cpu.address();
    cpu.write_byte(address, value)?;
    cpu.advance()
}

/// CMP with a number.
pub fn cmp_immediate(cpu: &mut CPU) -> (result: Result<(), Fault>)
    ensures
        agrees(final(cpu)@, result, cmp_immediate_step(old(cpu)@)),
{
    reveal(cmp_immediate_step);
    let val1 = cpu.register(cpu.dest())?;
    let val2 = cpu.dr;
    compare(cpu, val1, val2);
    cpu.advance()
}

/// CMP with a register.
pub fn cmp_register(cpu: &mut CPU) -> (result: Result<(), Fault>)
    ensures
        agrees(final(cpu)@, result, cmp_register_step(old(cpu)@)),
{
    reveal(cmp_register_step);
    let val1 = cpu.register(cpu.dest())?;
    let val2 = cpu.register(cpu.source())?;
    compare(cpu, val1, val2);
    cpu.advance()
}

/// BEQ: a jump where the flag Z is set.
pub fn beq(cpu: &mut CPU) -> (result: Result<(), Fault>)
    ensures
        agrees(final(cpu)@, result, beq_step(old(cpu)@)),
{
    reveal(beq_step);
    branch_flag_set(cpu, Flag::Z)
}

/// BGT: a jump where the flag G is set.
pub fn bgt(cpu: &mut CPU) -> (result: Result<(), Fault>)
    ensures
        agrees(final(cpu)@, result, bgt_step(old(cpu)@)),
{
    reveal(bgt_step);
    branch_flag_set(cpu, Flag::G)
}

/// BLT: a jump where the flag L is set.
pub fn blt(cpu: &mut CPU) -> (result: Result<(), Fault>)
    ensures
        agrees(final(cpu)@, result, blt_step(old(cpu)@)),
{
    reveal(blt_step);
    branch_flag_set(cpu, Flag::L)
}

/// BOF: a jump where the flag O is set.
pub fn bof(cpu: &mut CPU) -> (result: Result<(), Fault>)
    ensures
        agrees(final(cpu)@, result, bof_step(old(cpu)@)),
{
    reveal(bof_step);
    branch_flag_set(cpu, Flag::O)
}

/// BNE: a jump where the flag Z is clear.
pub fn bne(cpu: &mut CPU) -> (result: Result<(), Fault>)
    ensures
        agrees(final(cpu)@, result, bne_step(old(cpu)@)),
{
    reveal(bne_step);
    branch_flag_not_set(cpu, Flag::Z)
}

/// BGE: a jump where the flag G or the flag Z is set.
pub fn bge(cpu: &mut CPU) -> (result: Result<(), Fault>)
    ensures
        agrees(final(cpu)@, result, bge_step(old(cpu)@)),
{
    reveal(bge_step);
    branch_either_flag_set(cpu, Flag::G, Flag::Z)
}

/// BLE: a jump where the flag L or the flag Z is set.
pub fn ble(cpu: &mut CPU) -> (result: Result<(), Fault>)
    ensures
        agrees(final(cpu)@, result, ble_step(old(cpu)@)),
{
    reveal(ble_step);
    branch_either_flag_set(cpu, Flag::L, Flag::Z)
}

/// JMP.
pub fn jmp(cpu: &mut CPU) -> (result: Result<(), Fault>)
    ensures
        agrees(final(cpu)@, result, jmp_step(old(cpu)@)),
{
    reveal(jmp_step);
    cpu.pc = cpu.target();
    Ok(())
}

/// JSR.
pub fn jsr(cpu: &mut CPU) -> (result: Result<(), Fault>)
    ensures
        agrees(final(cpu)@, result, jsr_step(old(cpu)@)),
{
    reveal(jsr_step);
    if cpu.pc as u32 + cpu.size as u32 > 0xFFFF {
        return Err(Fault::Execution(ExecutionFault::ProgramCounterOverflow));
    }
    cpu.push(cpu.pc + cpu.size as u16)?;
    cpu.pc = cpu.target();
    Ok(())
}

/// ADD with a number.
pub fn add_immediate(cpu: &mut CPU) -> (result: Result<(), Fault>)
    ensures
        agrees(final(cpu)@, result, add_immediate_step(old(cpu)@)),
{
    reveal(add_immediate_step);
    let val1 = cpu.register(cpu.dest())?;
    let val2 = cpu.dr;
    let result = self::add(cpu, val1, val2);
    cpu.store(cpu.dest(), result)?;
    cpu.advance()
}

/// ADD with a register.
pub fn add_register(cpu: &mut CPU) -> (result: Result<(), Fault>)
    ensures
        agrees(final(cpu)@, result, add_register_step(old(cpu)@)),
{
    reveal(add_register_step);
    let val1 = cpu.register(cpu.dest())?;
    let val2 = cpu.register(cpu.source())?;
    let result = self::add(cpu, val1, val2);
    cpu.store(cpu.dest(), result)?;
    cpu.advance()
}

/// SUB with a number.
pub fn sub_immediate(cpu: &mut CPU) -> (result: Result<(), Fault>)
    ensures
        agrees(final(cpu)@, result, sub_immediate_step(old(cpu)@)),
{
    reveal(sub_immediate_step);
    let val1 = cpu.register(cpu.dest())?;
    let val2 = cpu.dr;
    let result = self::sub(cpu, val1, val2);
    cpu.store(cpu.dest(), result)?;
    cpu.advance()
}

/// SUB with a register.
pub fn sub_register(cpu: &mut CPU) -> (result: Result<(), Fault>)
    ensures
        agrees(final(cpu)@, result, sub_register_step(old(cpu)@)),
{
    reveal(sub_register_step);
    let val1 = cpu.register(cpu.dest())?;
    let val2 = cpu.register(cpu.source())?;
    let result = self::sub(cpu, val1, val2);
    cpu.store(cpu.dest(), result)?;
    cpu.advance()
}

/// MUL with a number.
pub fn mul_immediate(cpu: &mut CPU) -> (result: Result<(), Fault>)
    ensures
        agrees(final(cpu)@, result, mul_immediate_step(old(cpu)@)),
{
    reveal(mul_immediate_step);
    let val1 = cpu.register(cpu.dest())?;
    let val2 = cpu.dr;
    let result = self::mul(cpu, val1, val2);
    cpu.store(cpu.dest(), result)?;
    cpu.advance()
}

/// MUL with a register.
pub fn mul_register(cpu: &mut CPU) -> (result: Result<(), Fault>)
    ensures
        agrees(final(cpu)@, result, mul_register_step(old(cpu)@)),
{
    reveal(mul_register_step);
    let val1 = cpu.register(cpu.dest())?;
    let val2 = cpu.register(cpu.source())?;
    let result = self::mul(cpu, val1, val2);
    cpu.store(cpu.dest(), result)?;
    cpu.advance()
}

/// AND with a number.
pub fn and_immediate(cpu: &mut CPU) -> (result: Result<(), Fault>)
    ensures
        agrees(final(cpu)@, result, and_immediate_step(old(cpu)@)),
{
    reveal(and_immediate_step);
    let val1 = cpu.register(cpu.dest())?;
    let val2 = cpu.dr;
    cpu.store(cpu.dest(), val1 & val2)?;
    cpu.advance()
}

/// AND with a register.
pub fn and_register(cpu: &mut CPU) -> (result: Result<(), Fault>)
    ensures
        agrees(final(cpu)@, result, and_register_step(old(cpu)@)),
{
    reveal(and_register_step);
    let val1 = cpu.register(cpu.dest())?;
    let val2 = cpu.register(cpu.source())?;
    cpu.store(cpu.dest(), val1 & val2)?;
    cpu.advance()
}

/// OR with a number.
pub fn or_immediate(cpu: &mut CPU) -> (result: Result<(), Fault>)
    ensures
        agrees(final(cpu)@, result, or_immediate_step(old(cpu)@)),
{
    reveal(or_immediate_step);
    let val1 = cpu.register(cpu.dest())?;
    let val2 = cpu.dr;
    cpu.store(cpu.dest(), val1 | val2)?;
    cpu.advance()
}

/// OR with a register.
pub fn or_register(cpu: &mut CPU) -> (result: Result<(), Fault>)
    ensures
        agrees(final(cpu)@, result, or_register_step(old(cpu)@)),
{
    reveal(or_register_step);
    let val1 = cpu.register(cpu.dest())?;
    let val2 = cpu.register(cpu.source())?;
    cpu.store(cpu.dest(), val1 | val2)?;
    cpu.advance()
}

/// XOR with a number.
pub fn xor_immediate(cpu: &mut CPU) -> (result: Result<(), Fault>)
    ensures
        agrees(final(cpu)@, result, xor_immediate_step(old(cpu)@)),
{
    reveal(xor_immediate_step);
    let val1 = cpu.register(cpu.dest())?;
    let val2 = cpu.dr;
    cpu.store(cpu.dest(), val1 ^ val2)?;
    cpu.advance()
}

/// XOR with a register.
pub fn xor_register(cpu: &mut CPU) -> (result: Result<(), Fault>)
    ensures
        agrees(final(cpu)@, result, xor_register_step(old(cpu)@)),
{
    reveal(xor_register_step);
    let val1 = cpu.register(cpu.dest())?;
    let val2 = cpu.register(cpu.source())?;
    cpu.store(cpu.dest(), val1 ^ val2)?;
    cpu.advance()
}

/// LSH with a number.
pub fn lsh_immediate(cpu: &mut CPU) -> (result: Result<(), Fault>)
    ensures
        agrees(final(cpu)@, result, lsh_immediate_step(old(cpu)@)),
{
    reveal(lsh_immediate_step);
    let val1 = cpu.register(cpu.dest())?;
    let val2 = cpu.dr;
    cpu.store(cpu.dest(), shift_left(val1, val2))?;
    cpu.advance()
}

/// LSH with a register.
pub fn lsh_register(cpu: &mut CPU) -> (result: Result<(), Fault>)
    ensures
        agrees(final(cpu)@, result, lsh_register_step(old(cpu)@)),
{
    reveal(lsh_register_step);
    let val1 = cpu.register(cpu.dest())?;
    let val2 = cpu.register(cpu.source())?;
    cpu.store(cpu.dest(), shift_left(val1, val2))?;
    cpu.advance()
}

/// RSH with a number.
pub fn rsh_immediate(cpu: &mut CPU) -> (result: Result<(), Fault>)
    ensures
        agrees(final(cpu)@, result, rsh_immediate_step(old(cpu)@)),
{
    reveal(rsh_immediate_step);
    let val1 = cpu.register(cpu.dest())?;
    let val2 = cpu.dr;
    cpu.store(cpu.dest(), shift_right(val1, val2))?;
    cpu.advance()
}

/// RSH with a register.
pub fn rsh_register(cpu: &mut CPU) -> (result: Result<(), Fault>)
    ensures
        agrees(final(cpu)@, result, rsh_register_step(old(cpu)@)),
{
    reveal(rsh_register_step);
    let val1 = cpu.register(cpu.dest())?;
    let val2 = cpu.register(cpu.source())?;
    cpu.store(cpu.dest(), shift_right(val1, val2))?;
    cpu.advance()
}

/// MOD with a number.
pub fn mod_immediate(cpu: &mut CPU) -> (result: Result<(), Fault>)
    ensures
        agrees(final(cpu)@, result, mod_immediate_step(old(cpu)@)),
{
    reveal(mod_immediate_step);
    let val1 = cpu.register(cpu.dest())?;
    let val2 = cpu.dr;
    if val2 == 0 {
        return Err(Fault::Execution(ExecutionFault::DivisionByZero));
    }
    cpu.store(cpu.dest(), val1 % val2)?;
    cpu.advance()
}

/// MOD with a register.
pub fn mod_register(cpu: &mut CPU) -> (result: Result<(), Fault>)
    ensures
        agrees(final(cpu)@, result, mod_register_step(old(cpu)@)),
{
    reveal(mod_register_step);
    let val1 = cpu.register(cpu.dest())?;
    let val2 = cpu.register(cpu.source())?;
    if val2 == 0 {
        return Err(Fault::Execution(ExecutionFault::DivisionByZero));
    }
    cpu.store(cpu.dest(), val1 % val2)?;
    cpu.advance()
}

/// RET.
pub fn ret(cpu: &mut CPU) -> (result: Result<(), Fault>)
    ensures
        agrees(final(cpu)@, result, ret_step(old(cpu)@)),
{
    reveal(ret_step);
    let addr = cpu.pop()?;
    cpu.pc = addr;
    Ok(())
}

/// INT.
pub fn int_immediate(cpu: &mut CPU) -> (result: Result<(), Fault>)
    ensures
        agrees(final(cpu)@, result, int_immediate_step(old(cpu)@)),
{
    reveal(int_immediate_step);
    let number = cpu.source();
    if cpu.enter_interrupt(number)? {
        return Ok(());
    }
    cpu.advance()
}

/// REI.
pub fn rei(cpu: &mut CPU) -> (result: Result<(), Fault>)
    ensures
        agrees(final(cpu)@, result, rei_step(old(cpu)@)),
{
    reveal(rei_step);
    cpu.pop_registers()
}

/// HLT.
pub fn hlt(cpu: &mut CPU) -> (result: Result<(), Fault>)
    ensures
        agrees(final(cpu)@, result, hlt_step(old(cpu)@)),
{
    reveal(hlt_step);
    cpu.running = false;
    Ok(())
}

/// NOP.
pub fn nop(cpu: &mut CPU) -> (result: Result<(), Fault>)
    ensures
        agrees(final(cpu)@, result, nop_step(old(cpu)@)),
{
    reveal(nop_step);
    cpu.advance()
}

/// Carries out the routine `executor` on the processor.
pub fn execute(cpu: &mut CPU, executor: Executor) -> (result: Result<(), Fault>)
    ensures
        agrees(final(cpu)@, result, execute_step(old(cpu)@, executor)),
{
    reveal(execute_step);
    match executor {
        Executor::MovImmediate => mov_immediate(cpu),
        Executor::MovRegister => mov_register(cpu),
        Executor::LdRegister => ld_register(cpu),
        Executor::LdAddress => ld_address(cpu),
        Executor::LdbRegister => ldb_register(cpu),
        Executor::LdbAddress => ldb_address(cpu),
        Executor::PshImmediate => psh_immediate(cpu),
        Executor::PshRegister => psh_register(cpu),
        Executor::PshAddress => psh_address(cpu),
        Executor::PopRegister => pop_register(cpu),
        Executor::Pop => pop(cpu),
        Executor::StRegister => st_register(cpu),
        Executor::StAddress => st_address(cpu),
        Executor::StlRegister => stl_register(cpu),
        Executor::StlAddress => stl_address(cpu),
        Executor::SthRegister => sth_register(cpu),
        Executor::SthAddress => sth_address(cpu),
        Executor::CmpImmediate => cmp_immediate(cpu),
        Executor::CmpRegister => cmp_register(cpu),
        Executor::Beq => beq(cpu),
        Executor::Bgt => bgt(cpu),
        Executor::Blt => blt(cpu),
        Executor::Bof => bof(cpu),
        Executor::Bne => bne(cpu),
        Executor::Jmp => jmp(cpu),
        Executor::Jsr => jsr(cpu),
        Executor::AddImmediate => add_immediate(cpu),
        Executor::AddRegister => add_register(cpu),
        Executor::SubImmediate => sub_immediate(cpu),
        Executor::SubRegister => sub_register(cpu),
        Executor::Ret => ret(cpu),
        Executor::IntImmediate => int_immediate(cpu),
        Executor::Rei => rei(cpu),
        Executor::AndImmediate => and_immediate(cpu),
        Executor::AndRegister => and_register(cpu),
        Executor::OrImmediate => or_immediate(cpu),
        Executor::OrRegister => or_register(cpu),
        Executor::XorImmediate => xor_immediate(cpu),
        Executor::XorRegister => xor_register(cpu),
        Executor::LshImmediate => lsh_immediate(cpu),
        Executor::LshRegister => lsh_register(cpu),
        Executor::RshImmediate => rsh_immediate(cpu),
        Executor::RshRegister => rsh_register(cpu),
        Executor::MulImmediate => mul_immediate(cpu),
        Executor::MulRegister => mul_register(cpu),
        Executor::ModImmediate => mod_immediate(cpu),
        Executor::ModRegister => mod_register(cpu),
        Executor::Bge => bge(cpu),
        Executor::Ble => ble(cpu),
        Executor::Hlt => hlt(cpu),
        Executor::Nop => nop(cpu),
    }
}

} // verus!
