//! The processor: its registers and flags, and one tick of its
//! fetch, decode and execute cycle.

use super::device::map::{
    bus_after_write, bus_after_write_byte, bus_read, bus_read_byte, bus_write, bus_write_byte,
    DeviceMap, DeviceMapResult,
};
use super::device::{Device, DeviceModel, DeviceResponse};
use crate::common::instruction::instructions::{execute, execute_step};
use crate::common::instruction::opcode::{table_entry, Instruction};
use vstd::prelude::*;

verus! {

/// One flag of the processor.
#[derive(Debug, Clone, Copy, PartialEq, Eq, Structural)]
pub enum Flag {
    /// The last comparison found its operands equal.
    Z,
    /// The last addition or subtraction left the range of a word.
    O,
    /// The last comparison found the first operand the smaller one.
    L,
    /// The last comparison found the first operand the greater one.
    G,
    /// The instruction in flight carries a twenty-bit address.
    D,
}

impl Flag {
    /// The bit that stands for the flag where the flags are stored as a word.
    pub open spec fn mask(self) -> u32 {
        match self {
            Flag::Z => 0b00000001,
            Flag::O => 0b00000010,
            Flag::G => 0b00100000,
            Flag::L => 0b01000000,
            Flag::D => 0b10000000,
        }
    }
}

/// The flags of the processor.
#[derive(Debug, Clone, Copy, PartialEq, Eq, Structural)]
pub struct Flags {
    pub z: bool,
    pub o: bool,
    pub l: bool,
    pub g: bool,
    pub d: bool,
}

/// The number 1 where `on` holds, 0 where it does not.
pub open spec fn bit(on: bool) -> int {
    if on {
        1
    } else {
        0
    }
}

impl Flags {
    /// Whether `flag` is set.
    pub open spec fn has(self, flag: Flag) -> bool {
        match flag {
            Flag::Z => self.z,
            Flag::O => self.o,
            Flag::L => self.l,
            Flag::G => self.g,
            Flag::D => self.d,
        }
    }

    /// The flags with `flag` set or cleared.
    pub open spec fn with(self, flag: Flag, value: bool) -> Flags {
        match flag {
            Flag::Z => Flags { z: value, ..self },
            Flag::O => Flags { o: value, ..self },
            Flag::L => Flags { l: value, ..self },
            Flag::G => Flags { g: value, ..self },
            Flag::D => Flags { d: value, ..self },
        }
    }

    /// The word under which the flags are stored: the bit of each flag that is
    /// set.
    pub open spec fn word(self) -> int {
        bit(self.z) * 1 + bit(self.o) * 2 + bit(self.g) * 32 + bit(self.l) * 64 + bit(self.d) * 128
    }

    /// The flags that a stored word stands for; `None` where the word has a
    /// bit that stands for no flag.
    pub open spec fn of_word(word: int) -> Option<Flags> {
        if 0 <= word < 256 && (word / 4) % 8 == 0 {
            Some(
                Flags {
                    z: word % 2 == 1,
                    o: (word / 2) % 2 == 1,
                    g: (word / 32) % 2 == 1,
                    l: (word / 64) % 2 == 1,
                    d: (word / 128) % 2 == 1,
                },
            )
        } else {
            None
        }
    }

    /// No flag set.
    pub fn empty() -> (flags: Flags)
        ensures
            flags == (Flags { z: false, o: false, l: false, g: false, d: false }),
    {
        Flags { z: false, o: false, l: false, g: false, d: false }
    }

    /// Every flag set.
    pub fn all() -> (flags: Flags)
        ensures
            flags == (Flags { z: true, o: true, l: true, g: true, d: true }),
    {
        Flags { z: true, o: true, l: true, g: true, d: true }
    }

    /// Whether `flag` is set.
    pub fn contains(&self, flag: Flag) -> (on: bool)
        ensures
            on == self.has(flag),
    {
        match flag {
            Flag::Z => self.z,
            Flag::O => self.o,
            Flag::L => self.l,
            Flag::G => self.g,
            Flag::D => self.d,
        }
    }

    /// Sets or clears `flag`; the other flags stay.
    pub fn set(&mut self, flag: Flag, value: bool)
        ensures
            *final(self) == old(self).with(flag, value),
    {
        match flag {
            Flag::Z => self.z = value,
            Flag::O => self.o = value,
            Flag::L => self.l = value,
            Flag::G => self.g = value,
            Flag::D => self.d = value,
        }
    }

    /// The word under which the flags are stored.
    pub fn bits(&self) -> (word: u32)
        ensures
            word == self.word(),
            word < 256,
            Flags::of_word(word as int) == Some(*self),
    {
        let mut word: u32 = 0;
        if self.z {
            word += 1;
        }
        if self.o {
            word += 2;
        }
        if self.g {
            word += 32;
        }
        if self.l {
            word += 64;
        }
        if self.d {
            word += 128;
        }
        word
    }

    /// The flags that a stored word stands for; `None` where the word has a
    /// bit that stands for no flag.
    pub fn from_bits(word: u32) -> (flags: Option<Flags>)
        ensures
            flags == Flags::of_word(word as int),
            flags matches Some(found) ==> found.word() == word,
    {
        if word < 256 && (word / 4) % 8 == 0 {
            Some(
                Flags {
                    z: word % 2 == 1,
                    o: (word / 2) % 2 == 1,
                    g: (word / 32) % 2 == 1,
                    l: (word / 64) % 2 == 1,
                    d: (word / 128) % 2 == 1,
                },
            )
        } else {
            None
        }
    }
}

/// The direction of the access that the pins show.
#[derive(Debug, Clone, Copy, PartialEq, Eq, Structural)]
pub enum ReadWrite {
    Read,
    Write,
}

/// The interrupt request pin: off, or on with the number of the interrupt.
#[derive(Debug, Clone, Copy, PartialEq, Eq, Structural)]
pub enum IrqPin {
    Off,
    On(u8),
}

/// The pins of the processor.
#[derive(Debug, Clone, Copy, PartialEq, Eq, Structural)]
pub struct Pins {
    pub data: u16,
    /// Twenty of the thirty-two bits are used.
    pub address: u32,
    pub rw: ReadWrite,
    pub irq: IrqPin,
}

impl Pins {
    /// Pins at rest: no data, address zero, reading, no interrupt requested.
    pub fn new() -> (pins: Pins)
        ensures
            pins == (Pins { data: 0, address: 0, rw: ReadWrite::Read, irq: IrqPin::Off }),
    {
        Pins { data: 0, address: 0, rw: ReadWrite::Read, irq: IrqPin::Off }
    }
}

impl Default for Pins {
    fn default() -> (pins: Pins)
        ensures
            pins == (Pins { data: 0, address: 0, rw: ReadWrite::Read, irq: IrqPin::Off }),
    {
        Pins::new()
    }
}

/// What of the processor is to be written out.
#[derive(Debug, Clone, Copy, PartialEq, Eq, Structural)]
pub enum Dump {
    All,
    Memory,
    Stats,
}

/// The registers, flags and pins after a tick, for a debugger to show.
#[derive(Debug, Clone, Copy, PartialEq, Eq, Structural)]
pub struct DebugInfo {
    pub r1: u16,
    pub r2: u16,
    pub r3: u16,
    pub r4: u16,
    pub r5: u16,
    pub r6: u16,
    pub pc: u16,
    pub sp: u16,
    pub bp: u16,
    pub flags: Flags,
    pub pins: Pins,
}

/// Why the bus did not serve an access.
#[derive(Debug, Clone, Copy, PartialEq, Eq, Structural)]
pub enum BusError {
    /// No device answers for the address.
    NoDevices,
    /// The device at the address cannot be written.
    ReadOnly,
    /// The device at the address cannot be read.
    WriteOnly,
    /// The device at the address has nothing behind it there.
    InvalidAddress,
}

/// Why an instruction could not be carried out.
#[derive(Debug, Clone, Copy, PartialEq, Eq, Structural)]
pub enum ExecutionFault {
    /// The instruction names a register above the ninth.
    InvalidRegister,
    /// A pop with the stack pointer below two.
    StackUnderflow,
    /// A push that would take the stack pointer past the last address.
    StackOverflow,
    /// The program counter would pass the last address.
    ProgramCounterOverflow,
    /// A remainder by zero.
    DivisionByZero,
    /// The word that was popped as flags has a bit that stands for no flag.
    InvalidFlags,
}

/// Why a tick failed. No failure is recovered from: the run ends with it.
#[derive(Debug, Clone, Copy, PartialEq, Eq, Structural)]
pub enum Fault {
    /// An access to the bus at the given address was not served.
    Bus(u32, BusError),
    /// The table holds no row under the opcode byte.
    InvalidOpcode(u8),
    /// The instruction could not be carried out.
    Execution(ExecutionFault),
}

/// The fault that stands for an access to `addr` that the bus did not serve.
pub open spec fn bus_fault<T>(addr: u32, result: DeviceMapResult<T>) -> Fault {
    match result {
        DeviceMapResult::Error(DeviceResponse::ReadOnly) => Fault::Bus(addr, BusError::ReadOnly),
        DeviceMapResult::Error(DeviceResponse::WriteOnly) => Fault::Bus(addr, BusError::WriteOnly),
        DeviceMapResult::Error(_) => Fault::Bus(addr, BusError::InvalidAddress),
        _ => Fault::Bus(addr, BusError::NoDevices),
    }
}

/// The processor as a value: registers, flags, pins, and the devices on its
/// bus.
pub struct CpuState {
    pub r1: u16,
    pub r2: u16,
    pub r3: u16,
    pub r4: u16,
    pub r5: u16,
    pub r6: u16,
    pub sp: u16,
    pub pc: u16,
    pub bp: u16,
    pub flags: Flags,
    pub ir: u16,
    pub dr: u16,
    pub ad: u8,
    pub size: u8,
    pub pins: Pins,
    pub bus: Seq<DeviceModel>,
    pub running: bool,
    pub debug_mode: bool,
}

/// A processor after a step, and the fault with which the step ended if it
/// failed.
pub struct Step {
    pub state: CpuState,
    pub fault: Option<Fault>,
}

/// A step that went through and left the processor in `state`.
pub open spec fn done(state: CpuState) -> Step {
    Step { state, fault: None }
}

/// A step that failed with `fault` and left the processor in `state`.
pub open spec fn failed(state: CpuState, fault: Fault) -> Step {
    Step { state, fault: Some(fault) }
}

impl Step {
    /// What the routine that takes the step returns.
    pub open spec fn result(self) -> Result<(), Fault> {
        match self.fault {
            Some(fault) => Err(fault),
            None => Ok(()),
        }
    }

    /// The step, followed by `next` where it went through.
    pub open spec fn and_then(self, next: spec_fn(CpuState) -> Step) -> Step {
        if self.fault is Some {
            self
        } else {
            next(self.state)
        }
    }
}

impl CpuState {
    /// The register with the number `reg`: 0 to 5 are the general registers,
    /// 6 is the program counter, 7 the stack pointer, 8 the base pointer.
    pub open spec fn register(self, reg: u8) -> u16 {
        if reg == 0 {
            self.r1
        } else if reg == 1 {
            self.r2
        } else if reg == 2 {
            self.r3
        } else if reg == 3 {
            self.r4
        } else if reg == 4 {
            self.r5
        } else if reg == 5 {
            self.r6
        } else if reg == 6 {
            self.pc
        } else if reg == 7 {
            self.sp
        } else {
            self.bp
        }
    }

    /// The processor with `value` in the register with the number `reg`.
    pub open spec fn with_register(self, reg: u8, value: u16) -> CpuState {
        if reg == 0 {
            CpuState { r1: value, ..self }
        } else if reg == 1 {
            CpuState { r2: value, ..self }
        } else if reg == 2 {
            CpuState { r3: value, ..self }
        } else if reg == 3 {
            CpuState { r4: value, ..self }
        } else if reg == 4 {
            CpuState { r5: value, ..self }
        } else if reg == 5 {
            CpuState { r6: value, ..self }
        } else if reg == 6 {
            CpuState { pc: value, ..self }
        } else if reg == 7 {
            CpuState { sp: value, ..self }
        } else {
            CpuState { bp: value, ..self }
        }
    }

    /// The number of the register that the instruction in flight names in the
    /// high half of its second byte.
    pub open spec fn dest(self) -> u8 {
        ((self.ir as int / 16) % 16) as u8
    }

    /// The number of the register that the operand of the instruction in
    /// flight names: its low byte.
    pub open spec fn source(self) -> u8 {
        (self.dr as int % 256) as u8
    }

    /// The address that the operand of the instruction in flight names: the
    /// operand itself, or, with the flag D set, twenty bits of which the
    /// address nibble is the top.
    pub open spec fn address(self) -> u32 {
        if self.flags.d {
            (self.ad as int * 0x10000 + self.dr as int) as u32
        } else {
            self.dr as u32
        }
    }

    /// Where a jump of the instruction in flight goes: its operand, or, with
    /// the flag D set, the low twelve bits of the operand above the low four
    /// of the address nibble.
    pub open spec fn target(self) -> u16 {
        if self.flags.d {
            ((self.dr as int * 16) % 0x10000 + self.ad as int % 16) as u16
        } else {
            self.dr
        }
    }

    /// The processor with its program counter past the instruction in flight;
    /// a fault where that lies beyond the last address.
    pub open spec fn advanced(self) -> Step {
        if self.pc + self.size > 0xFFFF {
            failed(self, Fault::Execution(ExecutionFault::ProgramCounterOverflow))
        } else {
            done(CpuState { pc: (self.pc + self.size) as u16, ..self })
        }
    }

    /// The processor with `value` in the register with the number `reg`; a
    /// fault where there is no such register.
    pub open spec fn stored(self, reg: u8, value: u16) -> Step {
        if reg > 8 {
            failed(self, Fault::Execution(ExecutionFault::InvalidRegister))
        } else {
            done(self.with_register(reg, value))
        }
    }

    /// The processor after a write of `value` to the word at `addr` of the
    /// bus.
    pub open spec fn written(self, addr: u32, value: u16) -> Step {
        match bus_write(self.bus, addr, value) {
            DeviceMapResult::Served(_) => done(
                CpuState { bus: bus_after_write(self.bus, addr, value), ..self },
            ),
            other => failed(self, bus_fault(addr, other)),
        }
    }

    /// The processor after a write of `value` to the byte at `addr` of the
    /// bus.
    pub open spec fn written_byte(self, addr: u32, value: u8) -> Step {
        match bus_write_byte(self.bus, addr, value) {
            DeviceMapResult::Served(_) => done(
                CpuState { bus: bus_after_write_byte(self.bus, addr, value), ..self },
            ),
            other => failed(self, bus_fault(addr, other)),
        }
    }

    /// The processor after a push of `value`: the word is written where the
    /// stack pointer points, then the stack pointer moves up by two.
    pub open spec fn pushed(self, value: u16) -> Step {
        let wrote = self.written(self.sp as u32, value);
        if wrote.fault is Some {
            wrote
        } else if self.sp + 2 > 0xFFFF {
            failed(wrote.state, Fault::Execution(ExecutionFault::StackOverflow))
        } else {
            done(CpuState { sp: (self.sp + 2) as u16, ..wrote.state })
        }
    }

    /// The processor after a pop: the stack pointer moves down by two, then
    /// the word to which it points is read.
    pub open spec fn popped(self) -> Step {
        if self.sp < 2 {
            failed(self, Fault::Execution(ExecutionFault::StackUnderflow))
        } else {
            let lowered = CpuState { sp: (self.sp - 2) as u16, ..self };
            match word_at(self.bus, (self.sp - 2) as u32) {
                Ok(_) => done(lowered),
                Err(fault) => failed(lowered, fault),
            }
        }
    }

    /// The word that a pop reads.
    pub open spec fn top(self) -> u16 {
        match word_at(self.bus, (self.sp - 2) as u32) {
            Ok(value) => value,
            Err(_) => 0,
        }
    }
}

/// The word at `addr` of the bus, or the fault with which reading it ends.
pub open spec fn word_at(bus: Seq<DeviceModel>, addr: u32) -> Result<u16, Fault> {
    match bus_read(bus, addr) {
        DeviceMapResult::Served(value) => Ok(value),
        other => Err(bus_fault(addr, other)),
    }
}

/// The byte at `addr` of the bus, or the fault with which reading it ends.
pub open spec fn byte_at(bus: Seq<DeviceModel>, addr: u32) -> Result<u8, Fault> {
    match bus_read_byte(bus, addr) {
        DeviceMapResult::Served(value) => Ok(value),
        other => Err(bus_fault(addr, other)),
    }
}

impl Step {
    /// The step, followed by moving the program counter past the instruction
    /// in flight.
    pub open spec fn advanced(self) -> Step {
        if self.fault is Some {
            self
        } else {
            self.state.advanced()
        }
    }

    /// The step, followed by a push of `value`.
    pub open spec fn pushed(self, value: u16) -> Step {
        if self.fault is Some {
            self
        } else {
            self.state.pushed(value)
        }
    }

    /// The step, followed by putting `value` into the register `reg`.
    pub open spec fn stored(self, reg: u8, value: u16) -> Step {
        if self.fault is Some {
            self
        } else {
            self.state.stored(reg, value)
        }
    }
}

/// A processor after a tick, the pins as the tick leaves them, and the fault
/// with which the tick ended if it failed.
pub struct Ticked {
    pub state: CpuState,
    pub pins: Pins,
    pub fault: Option<Fault>,
}

/// The processor after the fetch of the instruction at the program counter.
/// The flag D is cleared and the first two bytes go to `ir`. The bits 2 and 3
/// of the second byte say what follows them: 0 a one-byte operand, 1 a
/// two-byte operand, 2 the nibble of a twenty-bit address and its low sixteen
/// bits, which sets the flag D, 3 nothing. The operand goes to `dr`, the
/// nibble to `ad`, the length of the instruction to `size`.
#[verifier::opaque]
pub open spec fn fetched(cpu: CpuState) -> Step {
    let cleared = CpuState { flags: Flags { d: false, ..cpu.flags }, ..cpu };
    match word_at(cpu.bus, cpu.pc as u32) {
        Err(fault) => failed(cleared, fault),
        Ok(ir) => {
            let opened = CpuState { ir, ..cleared };
            let width = (ir as int / 4) % 4;
            if width == 0 {
                match byte_at(cpu.bus, (cpu.pc + 2) as u32) {
                    Err(fault) => failed(opened, fault),
                    Ok(operand) => done(CpuState { dr: operand as u16, size: 3, ..opened }),
                }
            } else if width == 1 {
                match word_at(cpu.bus, (cpu.pc + 2) as u32) {
                    Err(fault) => failed(opened, fault),
                    Ok(operand) => done(CpuState { dr: operand, size: 4, ..opened }),
                }
            } else if width == 2 {
                match byte_at(cpu.bus, (cpu.pc + 2) as u32) {
                    Err(fault) => failed(opened, fault),
                    Ok(nibble) => {
                        let long = CpuState { ad: (nibble as int % 16) as u8, ..opened };
                        match word_at(cpu.bus, (cpu.pc + 3) as u32) {
                            Err(fault) => failed(long, fault),
                            Ok(operand) => done(
                                CpuState {
                                    dr: operand,
                                    flags: Flags { d: true, ..long.flags },
                                    size: 5,
                                    ..long
                                },
                            ),
                        }
                    },
                }
            } else {
                done(CpuState { size: 2, ..opened })
            }
        },
    }
}

/// The processor after the instruction in flight was carried out: the high
/// byte of `ir` is looked up in the opcode table, and the routine of its row
/// runs.
#[verifier::opaque]
pub open spec fn dispatched(cpu: CpuState) -> Step {
    match table_entry((cpu.ir as int / 256) as u8) {
        None => failed(cpu, Fault::InvalidOpcode((cpu.ir as int / 256) as u8)),
        Some(info) => execute_step(cpu, info.2),
    }
}

/// The processor after fetching and carrying out one instruction; `ir`, `dr`
/// and `size` are zero again afterwards.
pub open spec fn cycled(cpu: CpuState) -> Step {
    let fetch = fetched(cpu);
    if fetch.fault is Some {
        fetch
    } else {
        let run = dispatched(fetch.state);
        if run.fault is Some {
            run
        } else {
            done(CpuState { size: 0, ir: 0, dr: 0, ..run.state })
        }
    }
}

/// One tick. With the interrupt pin on and a vector that is not zero, the
/// interrupt is entered and no instruction runs; else one instruction is
/// fetched and carried out. Either way the pin is off afterwards.
pub open spec fn ticked(cpu: CpuState, pins: Pins) -> Ticked {
    match pins.irq {
        IrqPin::On(number) => match cpu.interrupted(number) {
            Some(step) => Ticked {
                state: step.state,
                pins: Pins { irq: IrqPin::Off, ..pins },
                fault: step.fault,
            },
            None => Ticked {
                state: cycled(cpu).state,
                pins: Pins { irq: IrqPin::Off, rw: ReadWrite::Read, ..pins },
                fault: cycled(cpu).fault,
            },
        },
        IrqPin::Off => Ticked {
            state: cycled(cpu).state,
            pins: Pins { rw: ReadWrite::Read, ..pins },
            fault: cycled(cpu).fault,
        },
    }
}

impl Ticked {
    /// What `tick` returns: the pins, or the fault.
    pub open spec fn result(self) -> Result<Pins, Fault> {
        match self.fault {
            Some(fault) => Err(fault),
            None => Ok(self.pins),
        }
    }
}

/// The processor.
#[allow(clippy::upper_case_acronyms)]
pub struct CPU {
    pub r1: u16,
    pub r2: u16,
    pub r3: u16,
    pub r4: u16,
    pub r5: u16,
    pub r6: u16,
    pub sp: u16,
    pub pc: u16,
    pub bp: u16,
    pub flags: Flags,
    /// The first two bytes of the instruction in flight.
    pub ir: u16,
    /// The operand of the instruction in flight.
    pub dr: u16,
    /// The top four bits of a twenty-bit address.
    pub ad: u8,
    /// The length in bytes of the instruction in flight.
    pub size: u8,
    pub pins: Pins,
    pub map: DeviceMap,
    pub running: bool,
    pub debug_mode: bool,
}

impl View for CPU {
    type V = CpuState;

    open spec fn view(&self) -> CpuState {
        CpuState {
            r1: self.r1,
            r2: self.r2,
            r3: self.r3,
            r4: self.r4,
            r5: self.r5,
            r6: self.r6,
            sp: self.sp,
            pc: self.pc,
            bp: self.bp,
            flags: self.flags,
            ir: self.ir,
            dr: self.dr,
            ad: self.ad,
            size: self.size,
            pins: self.pins,
            bus: self.map@,
            running: self.running,
            debug_mode: self.debug_mode,
        }
    }
}

/// A processor at reset: every register zero but the program counter and the
/// stack pointer, no flag set, nothing on the bus, running.
pub open spec fn reset_state(pc: u16, sp: u16, debug_mode: bool) -> CpuState {
    CpuState {
        r1: 0,
        r2: 0,
        r3: 0,
        r4: 0,
        r5: 0,
        r6: 0,
        sp,
        pc,
        bp: 0,
        flags: Flags { z: false, o: false, l: false, g: false, d: false },
        ir: 0,
        dr: 0,
        ad: 0,
        size: 0,
        pins: Pins { data: 0, address: 0, rw: ReadWrite::Read, irq: IrqPin::Off },
        bus: Seq::empty(),
        running: true,
        debug_mode,
    }
}

impl CPU {
    /// A processor at reset that will fetch its first instruction at `pc` and
    /// push its first word at `sp`.
    pub fn new(pc: u16, sp: u16, debug_mode: bool) -> (cpu: CPU)
        ensures
            cpu@ == reset_state(pc, sp, debug_mode),
    {
        CPU {
            r1: 0,
            r2: 0,
            r3: 0,
            r4: 0,
            r5: 0,
            r6: 0,
            sp,
            pc,
            bp: 0,
            flags: Flags::empty(),
            ir: 0,
            dr: 0,
            ad: 0,
            size: 0,
            pins: Pins::new(),
            map: DeviceMap::new(),
            running: true,
            debug_mode,
        }
    }

    /// Moves the program counter past the instruction in flight.
    pub fn advance(&mut self) -> (result: Result<(), Fault>)
        ensures
            final(self)@ == old(self)@.advanced().state,
            result == old(self)@.advanced().result(),
    {
        if self.pc as u32 + self.size as u32 > 0xFFFF {
            return Err(Fault::Execution(ExecutionFault::ProgramCounterOverflow));
        }
        self.pc += self.size as u16;
        Ok(())
    }

    /// The register with the number `reg`, to read and to write.
    pub fn decode_register(&mut self, reg: u8) -> (register: &mut u16)
        requires
            reg <= 8,
        ensures
            *register == old(self)@.register(reg),
            final(self)@ == old(self)@.with_register(reg, *final(register)),
    {
        match reg {
            0 => &mut self.r1,
            1 => &mut self.r2,
            2 => &mut self.r3,
            3 => &mut self.r4,
            4 => &mut self.r5,
            5 => &mut self.r6,
            6 => &mut self.pc,
            7 => &mut self.sp,
            _ => &mut self.bp,
        }
    }

    /// What the register with the number `reg` holds; a fault where there is
    /// no such register.
    pub fn register(&self, reg: u8) -> (value: Result<u16, Fault>)
        ensures
            value == if reg <= 8 {
                Ok::<u16, Fault>(self@.register(reg))
            } else {
                Err::<u16, Fault>(Fault::Execution(ExecutionFault::InvalidRegister))
            },
    {
        match reg {
            0 => Ok(self.r1),
            1 => Ok(self.r2),
            2 => Ok(self.r3),
            3 => Ok(self.r4),
            4 => Ok(self.r5),
            5 => Ok(self.r6),
            6 => Ok(self.pc),
            7 => Ok(self.sp),
            8 => Ok(self.bp),
            _ => Err(Fault::Execution(ExecutionFault::InvalidRegister)),
        }
    }

    /// The number of the register that the instruction in flight names in the
    /// high half of its second byte.
    pub fn dest(&self) -> (reg: u8)
        ensures
            reg == self@.dest(),
            reg < 16,
    {
        ((self.ir / 16) % 16) as u8
    }

    /// The number of the register that the operand of the instruction in
    /// flight names.
    pub fn source(&self) -> (reg: u8)
        ensures
            reg == self@.source(),
    {
        (self.dr % 256) as u8
    }

    /// The address that the operand of the instruction in flight names.
    pub fn address(&self) -> (addr: u32)
        ensures
            addr == self@.address(),
    {
        if self.flags.contains(Flag::D) {
            self.ad as u32 * 0x10000 + self.dr as u32
        } else {
            self.dr as u32
        }
    }

    /// Where a jump of the instruction in flight goes.
    pub fn target(&self) -> (addr: u16)
        ensures
            addr == self@.target(),
    {
        if self.flags.contains(Flag::D) {
            (((self.dr as u32 * 16) % 0x10000) as u16) + (self.ad % 16) as u16
        } else {
            self.dr
        }
    }

    /// Puts `value` into the register with the number `reg`.
    pub fn store(&mut self, reg: u8, value: u16) -> (result: Result<(), Fault>)
        ensures
            final(self)@ == old(self)@.stored(reg, value).state,
            result == old(self)@.stored(reg, value).result(),
    {
        match reg {
            0 => self.r1 = value,
            1 => self.r2 = value,
            2 => self.r3 = value,
            3 => self.r4 = value,
            4 => self.r5 = value,
            5 => self.r6 = value,
            6 => self.pc = value,
            7 => self.sp = value,
            8 => self.bp = value,
            _ => {
                return Err(Fault::Execution(ExecutionFault::InvalidRegister));
            },
        }
        Ok(())
    }

    /// Reads the word at `addr` of the bus.
    pub fn read_word(&self, addr: u32) -> (value: Result<u16, Fault>)
        ensures
            value == word_at(self@.bus, addr),
    {
        match self.map.read(addr) {
            DeviceMapResult::Served(value) => Ok(value),
            other => Err(make_bus_fault(addr, other)),
        }
    }

    /// Reads the byte at `addr` of the bus.
    pub fn read_byte(&self, addr: u32) -> (value: Result<u8, Fault>)
        ensures
            value == byte_at(self@.bus, addr),
    {
        match self.map.read_byte(addr) {
            DeviceMapResult::Served(value) => Ok(value),
            other => Err(make_bus_fault(addr, other)),
        }
    }

    /// Writes `value` to the word at `addr` of the bus.
    pub fn write_word(&mut self, addr: u32, value: u16) -> (result: Result<(), Fault>)
        ensures
            final(self)@ == old(self)@.written(addr, value).state,
            result == old(self)@.written(addr, value).result(),
    {
        match self.map.write(addr, value) {
            DeviceMapResult::Served(_) => Ok(()),
            other => Err(make_bus_fault(addr, other)),
        }
    }

    /// Writes `value` to the byte at `addr` of the bus.
    pub fn write_byte(&mut self, addr: u32, value: u8) -> (result: Result<(), Fault>)
        ensures
            final(self)@ == old(self)@.written_byte(addr, value).state,
            result == old(self)@.written_byte(addr, value).result(),
    {
        match self.map.write_byte(addr, value) {
            DeviceMapResult::Served(_) => Ok(()),
            other => Err(make_bus_fault(addr, other)),
        }
    }

    /// Pushes `value`: writes it where the stack pointer points and moves the
    /// stack pointer up by two.
    pub fn push(&mut self, value: u16) -> (result: Result<(), Fault>)
        ensures
            final(self)@ == old(self)@.pushed(value).state,
            result == old(self)@.pushed(value).result(),
    {
        self.write_word(self.sp as u32, value)?;
        if self.sp > 0xFFFD {
            return Err(Fault::Execution(ExecutionFault::StackOverflow));
        }
        self.sp += 2;
        Ok(())
    }

    /// Pops a word: moves the stack pointer down by two and reads the word to
    /// which it then points.
    pub fn pop(&mut self) -> (result: Result<u16, Fault>)
        ensures
            final(self)@ == old(self)@.popped().state,
            match result {
                Ok(value) => old(self)@.popped().fault is None && value == old(self)@.top(),
                Err(fault) => old(self)@.popped().fault == Some(fault),
            },
    {
        if self.sp < 2 {
            return Err(Fault::Execution(ExecutionFault::StackUnderflow));
        }
        self.sp -= 2;
        self.read_word(self.sp as u32)
    }

    /// Pops a word into the register with the number `reg`.
    pub fn pop_into(&mut self, reg: u8) -> (result: Result<(), Fault>)
        ensures
            final(self)@ == old(self)@.popped_into(reg).state,
            result == old(self)@.popped_into(reg).result(),
    {
        let value = self.pop()?;
        self.store(reg, value)
    }

    /// Pushes the registers R1 to R6, the flags and the address of the
    /// instruction after the one in flight, in that order.
    pub fn push_registers(&mut self) -> (result: Result<(), Fault>)
        ensures
            final(self)@ == old(self)@.registers_pushed().state,
            result == old(self)@.registers_pushed().result(),
    {
        reveal(CpuState::registers_pushed);
        let return_to = self.pc as u32 + self.size as u32;
        let flags = self.flags.bits() as u16;
        self.push(self.r1)?;
        self.push(self.r2)?;
        self.push(self.r3)?;
        self.push(self.r4)?;
        self.push(self.r5)?;
        self.push(self.r6)?;
        self.push(flags)?;
        if return_to > 0xFFFF {
            return Err(Fault::Execution(ExecutionFault::ProgramCounterOverflow));
        }
        self.push(return_to as u16)
    }

    /// Pops the program counter, the flags and the registers R6 to R1, in
    /// that order: what `push_registers` pushed.
    pub fn pop_registers(&mut self) -> (result: Result<(), Fault>)
        ensures
            final(self)@ == old(self)@.registers_popped().state,
            result == old(self)@.registers_popped().result(),
    {
        reveal(CpuState::registers_popped);
        self.pop_into(6)?;
        let word = self.pop()?;
        match Flags::from_bits(word as u32) {
            Some(flags) => {
                self.flags = flags;
            },
            None => {
                return Err(Fault::Execution(ExecutionFault::InvalidFlags));
            },
        }
        self.pop_into(5)?;
        self.pop_into(4)?;
        self.pop_into(3)?;
        self.pop_into(2)?;
        self.pop_into(1)?;
        self.pop_into(0)
    }

    /// Enters the interrupt with the number `number` where its vector is not
    /// zero, and says whether it did.
    pub fn enter_interrupt(&mut self, number: u8) -> (result: Result<bool, Fault>)
        ensures
            match old(self)@.interrupted(number) {
                Some(step) => final(self)@ == step.state && match step.fault {
                    Some(fault) => result == Err::<bool, Fault>(fault),
                    None => result == Ok::<bool, Fault>(true),
                },
                None => final(self)@ == old(self)@ && result == Ok::<bool, Fault>(false),
            },
    {
        reveal(CpuState::interrupted);
        let vector = self.read_word(number as u32 * 2)?;
        if vector == 0 {
            return Ok(false);
        }
        self.push_registers()?;
        self.pc = vector;
        Ok(true)
    }

    /// Fetches the instruction at the program counter.
    pub fn fetch(&mut self) -> (result: Result<(), Fault>)
        ensures
            final(self)@ == fetched(old(self)@).state,
            result == fetched(old(self)@).result(),
    {
        reveal(fetched);
        self.flags.set(Flag::D, false);
        self.ir = self.read_word(self.pc as u32)?;
        let width = (self.ir / 4) % 4;
        if width == 0 {
            self.dr = self.read_byte(self.pc as u32 + 2)? as u16;
            self.size = 3;
        } else if width == 1 {
            self.dr = self.read_word(self.pc as u32 + 2)?;
            self.size = 4;
        } else if width == 2 {
            self.ad = self.read_byte(self.pc as u32 + 2)? % 16;
            self.dr = self.read_word(self.pc as u32 + 3)?;
            self.flags.set(Flag::D, true);
            self.size = 5;
        } else {
            self.size = 2;
        }
        Ok(())
    }

    /// Carries out the instruction in flight.
    pub fn dispatch(&mut self) -> (result: Result<(), Fault>)
        ensures
            final(self)@ == dispatched(old(self)@).state,
            result == dispatched(old(self)@).result(),
    {
        reveal(dispatched);
        let opcode = (self.ir / 256) as u8;
        let instruction = match Instruction::from_opcode(&opcode) {
            Ok(instruction) => instruction,
            Err(_) => {
                return Err(Fault::InvalidOpcode(opcode));
            },
        };
        execute(self, instruction.executor)
    }

    /// One tick of the processor: an interrupt is entered, or one instruction
    /// is fetched and carried out. Returns the pins as the tick leaves them,
    /// or the fault with which it ended.
    pub fn tick(&mut self, pins: Pins) -> (result: Result<Pins, Fault>)
        ensures
            final(self)@ == ticked(old(self)@, pins).state,
            result == ticked(old(self)@, pins).result(),
    {
        let mut pins = pins;
        if let IrqPin::On(irq) = pins.irq {
            pins.irq = IrqPin::Off;
            if self.enter_interrupt(irq)? {
                return Ok(pins);
            }
        }
        pins.rw = ReadWrite::Read;
        self.fetch()?;
        self.dispatch()?;
        self.size = 0;
        self.ir = 0;
        self.dr = 0;
        Ok(pins)
    }

    /// What is to be written out of the devices: for each device on the bus,
    /// in their order, its name and the bytes of its memory. Nothing where
    /// only the registers are asked for.
    pub fn dump(&self, dump_type: Dump) -> (files: Vec<(String, Vec<u8>)>)
        ensures
            dump_type == Dump::Stats ==> files@.len() == 0,
            dump_type != Dump::Stats ==> files@.len() == self@.bus.len() && forall|i: int|
                0 <= i < files@.len() ==> (#[trigger] files@[i]).0@ == self@.bus[i].name()
                    && files@[i].1@ == self@.bus[i].dump(),
    {
        match dump_type {
            Dump::Stats => Vec::new(),
            _ => self.dump_memory(),
        }
    }

    /// For each device on the bus, in their order, its name and the bytes of
    /// its memory.
    pub fn dump_memory(&self) -> (files: Vec<(String, Vec<u8>)>)
        ensures
            files@.len() == self@.bus.len(),
            forall|i: int|
                0 <= i < files@.len() ==> (#[trigger] files@[i]).0@ == self@.bus[i].name()
                    && files@[i].1@ == self@.bus[i].dump(),
    {
        let mut files: Vec<(String, Vec<u8>)> = Vec::new();
        let mut i: usize = 0;
        while i < self.map.devices.len()
            invariant
                i <= self.map.devices.len(),
                files@.len() == i,
                forall|j: int|
                    0 <= j < i ==> (#[trigger] files@[j]).0@ == self@.bus[j].name() && files@[j].1@
                        == self@.bus[j].dump(),
            decreases self.map.devices.len() - i,
        {
            let device = &self.map.devices[i];
            files.push((device.get_name(), device.get_memory()));
            i += 1;
        }
        files
    }

    /// The registers, flags and pins, for a debugger to show.
    pub fn debug_info(&self, pins: Pins) -> (info: DebugInfo)
        ensures
            info == (DebugInfo {
                r1: self.r1,
                r2: self.r2,
                r3: self.r3,
                r4: self.r4,
                r5: self.r5,
                r6: self.r6,
                pc: self.pc,
                sp: self.sp,
                bp: self.bp,
                flags: self.flags,
                pins,
            }),
    {
        DebugInfo {
            r1: self.r1,
            r2: self.r2,
            r3: self.r3,
            r4: self.r4,
            r5: self.r5,
            r6: self.r6,
            pc: self.pc,
            sp: self.sp,
            bp: self.bp,
            flags: self.flags,
            pins,
        }
    }
}

/// The fault that stands for an access to `addr` that the bus did not serve.
pub fn make_bus_fault<T>(addr: u32, result: DeviceMapResult<T>) -> (fault: Fault)
    ensures
        fault == bus_fault(addr, result),
{
    match result {
        DeviceMapResult::Error(DeviceResponse::ReadOnly) => Fault::Bus(addr, BusError::ReadOnly),
        DeviceMapResult::Error(DeviceResponse::WriteOnly) => Fault::Bus(addr, BusError::WriteOnly),
        DeviceMapResult::Error(_) => Fault::Bus(addr, BusError::InvalidAddress),
        _ => Fault::Bus(addr, BusError::NoDevices),
    }
}

} // verus!
