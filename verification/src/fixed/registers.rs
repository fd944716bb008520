//! The registers of the fixed-width processor.

use vstd::prelude::*;

verus! {

/// The registers. The flags are bits of one byte: bit 0 for equal, bit 1 for
/// overflow, bit 5 for greater, bit 6 for less.
#[derive(Clone, Copy, Debug, PartialEq, Eq, Structural)]
pub struct Registers {
    pub r1: u16,
    pub r2: u16,
    pub r3: u16,
    pub r4: u16,
    pub r5: u16,
    pub r6: u16,
    pub flags: u8,
    pub pc: u16,
    pub sp: u16,
    pub bp: u16,
}

/// Registers that are all zero.
pub open spec fn zeroed() -> Registers {
    Registers { r1: 0, r2: 0, r3: 0, r4: 0, r5: 0, r6: 0, flags: 0, pc: 0, sp: 0, bp: 0 }
}

impl Registers {
    /// Registers that are all zero.
    pub fn new() -> (registers: Registers)
        ensures
            registers == zeroed(),
    {
        Registers {
            r1: 0x0000,
            r2: 0x0000,
            r3: 0x0000,
            r4: 0x0000,
            r5: 0x0000,
            r6: 0x0000,
            flags: 0x00,
            pc: 0x0000,
            sp: 0x0000,
            bp: 0x0000,
        }
    }

    /// The register with the number `reg`: 0 to 5 are R1 to R6, 6 is the
    /// program counter, 7 the stack pointer, 8 the base pointer.
    pub open spec fn get(self, reg: u8) -> u16 {
        if reg == 0 {
            self.r1
        } else if reg == 1 {
            self.r2
        } else if reg == 2 {
            self.r3
        } else if reg == 3 {
            self.r4
        } else if reg == 4 {
            self.r5
        } else if reg == 5 {
            self.r6
        } else if reg == 6 {
            self.pc
        } else if reg == 7 {
            self.sp
        } else {
            self.bp
        }
    }

    /// The registers with `value` in the register with the number `reg`.
    pub open spec fn with(self, reg: u8, value: u16) -> Registers {
        if reg == 0 {
            Registers { r1: value, ..self }
        } else if reg == 1 {
            Registers { r2: value, ..self }
        } else if reg == 2 {
            Registers { r3: value, ..self }
        } else if reg == 3 {
            Registers { r4: value, ..self }
        } else if reg == 4 {
            Registers { r5: value, ..self }
        } else if reg == 5 {
            Registers { r6: value, ..self }
        } else if reg == 6 {
            Registers { pc: value, ..self }
        } else if reg == 7 {
            Registers { sp: value, ..self }
        } else {
            Registers { bp: value, ..self }
        }
    }
}

} // verus!
