//! A snapshot of the fixed-width processor.

use super::bus::DataBus;
use super::registers::Registers;
use vstd::prelude::*;

verus! {

/// The registers, the bytes of the stack and the memory at one moment.
pub struct CPUDump {
    pub registers: Registers,
    pub stack: Vec<u8>,
    pub memory: DataBus,
}

impl CPUDump {
    pub fn new(registers: &Registers, stack: Vec<u8>, memory: &DataBus) -> (dump: CPUDump)
        ensures
            dump.registers == *registers,
            dump.stack == stack,
            dump.memory.memory@ == memory.memory@,
    {
        CPUDump { registers: *registers, stack, memory: memory.copy() }
    }
}

} // verus!
