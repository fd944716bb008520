//! The memory of the fixed-width machine: one flat block.
//!
//! | addresses        | use              |
//! |------------------|------------------|
//! | 0x0000 - 0x1F40  | stack            |
//! | 0x1F41 - 0xDAC0  | general purpose  |
//! | 0xDAC1 - 0xFFDC  | program          |

use vstd::prelude::*;

verus! {

/// The number of bytes of the memory.
pub const MEMORY_SIZE: usize = 0xFFDD;

/// Why the memory did not serve an access.
#[derive(Debug, Clone, Copy, PartialEq, Eq, Structural)]
pub enum DataBusError {
    OutOfRange,
}

pub type DataBusResult = Result<Option<u8>, DataBusError>;

pub type DataBusShortResult = Result<Option<u16>, DataBusError>;

/// The memory.
#[derive(Clone, Debug)]
pub struct DataBus {
    pub memory: Vec<u8>,
}

/// A memory of `size` zero bytes.
pub open spec fn blank(size: nat) -> Seq<u8> {
    Seq::new(size, |i: int| 0u8)
}

/// The word at `addr`, the high byte first.
pub open spec fn short_at(memory: Seq<u8>, addr: int) -> u16 {
    (memory[addr] as int * 256 + memory[addr + 1] as int) as u16
}

impl DataBus {
    /// A memory of 0xFFDD zero bytes.
    pub fn new() -> (bus: DataBus)
        ensures
            bus.memory@ == blank(0xFFDD),
    {
        DataBus { memory: zeroes(MEMORY_SIZE) }
    }

    /// The byte at `addr`; an error where the memory does not reach that far.
    pub fn read(&self, addr: u16) -> (result: DataBusResult)
        ensures
            result == if addr < self.memory@.len() {
                Ok::<Option<u8>, DataBusError>(Some(self.memory@[addr as int]))
            } else {
                Err::<Option<u8>, DataBusError>(DataBusError::OutOfRange)
            },
    {
        if addr as usize >= self.memory.len() {
            return Err(DataBusError::OutOfRange);
        }
        Ok(Some(self.memory[addr as usize]))
    }

    /// The byte at `addr`, which lies in the memory.
    pub fn read_panic(&self, addr: u16) -> (value: u8)
        requires
            addr < self.memory@.len(),
        ensures
            value == self.memory@[addr as int],
    {
        self.memory[addr as usize]
    }

    /// The word at `addr`, the high byte first; an error where the memory
    /// does not hold both bytes.
    pub fn read_short(&self, addr: u16) -> (result: DataBusShortResult)
        ensures
            result == if addr + 1 < self.memory@.len() {
                Ok::<Option<u16>, DataBusError>(Some(short_at(self.memory@, addr as int)))
            } else {
                Err::<Option<u16>, DataBusError>(DataBusError::OutOfRange)
            },
    {
        if self.memory.len() < 2 || addr as usize >= self.memory.len() - 1 {
            return Err(DataBusError::OutOfRange);
        }
        let data_1 = self.memory[addr as usize];
        let data_2 = self.memory[addr as usize + 1];
        Ok(Some((data_1 as u16) * 256 + data_2 as u16))
    }

    /// The word at `addr`, both bytes of which lie in the memory.
    pub fn read_short_panic(&self, addr: u16) -> (value: u16)
        requires
            addr + 1 < self.memory@.len(),
        ensures
            value == short_at(self.memory@, addr as int),
    {
        let data_1 = self.memory[addr as usize];
        let data_2 = self.memory[addr as usize + 1];
        (data_1 as u16) * 256 + data_2 as u16
    }

    /// Puts `value` at `addr`; an error, and no change, where the memory does
    /// not reach that far.
    pub fn write(&mut self, addr: u16, value: &u8) -> (result: DataBusResult)
        ensures
            addr < old(self).memory@.len() ==> result == Ok::<Option<u8>, DataBusError>(None)
                && final(self).memory@ == old(self).memory@.update(addr as int, *value),
            addr >= old(self).memory@.len() ==> result == Err::<Option<u8>, DataBusError>(
                DataBusError::OutOfRange,
            ) && final(self).memory@ == old(self).memory@,
    {
        if addr as usize >= self.memory.len() {
            return Err(DataBusError::OutOfRange);
        }
        self.memory.set(addr as usize, *value);
        Ok(None)
    }

    /// Puts `value` at `addr`, which lies in the memory.
    pub fn write_panic(&mut self, addr: u16, value: &u8)
        requires
            addr < old(self).memory@.len(),
        ensures
            final(self).memory@ == old(self).memory@.update(addr as int, *value),
    {
        self.memory.set(addr as usize, *value);
    }

    /// Makes the memory 0xFFDD zero bytes again.
    pub fn reset(&mut self)
        ensures
            final(self).memory@ == blank(0xFFDD),
    {
        self.memory = zeroes(MEMORY_SIZE);
    }

    /// Copies `mem` into the memory from `start_addr` on. The bytes must fit.
    pub fn mem_copy(&mut self, start_addr: u16, mem: &[u8])
        requires
            start_addr + mem@.len() <= old(self).memory@.len(),
        ensures
            final(self).memory@ == copied(old(self).memory@, start_addr as int, mem@),
    {
        let mut i: usize = 0;
        while i < mem.len()
            invariant
                i <= mem.len(),
                mem.len() == mem@.len(),
                start_addr + mem@.len() <= self.memory@.len(),
                self.memory@.len() == old(self).memory@.len(),
                forall|j: int|
                    0 <= j < self.memory@.len() ==> self.memory@[j] == if start_addr <= j
                        < start_addr + i {
                        mem@[j - start_addr]
                    } else {
                        old(self).memory@[j]
                    },
            decreases mem.len() - i,
        {
            assert(start_addr + i < self.memory.len());
            self.memory.set(start_addr as usize + i, mem[i]);
            i += 1;
        }
        assert(self.memory@ =~= copied(old(self).memory@, start_addr as int, mem@));
    }

    /// A copy of the memory.
    pub fn copy(&self) -> (bus: DataBus)
        ensures
            bus.memory@ == self.memory@,
    {
        DataBus { memory: self.memory.clone() }
    }
}

/// A memory with `bytes` from position `start` on.
pub open spec fn copied(memory: Seq<u8>, start: int, bytes: Seq<u8>) -> Seq<u8> {
    Seq::new(
        memory.len(),
        |j: int|
            if start <= j < start + bytes.len() {
                bytes[j - start]
            } else {
                memory[j]
            },
    )
}

/// `size` zero bytes.
pub fn zeroes(size: usize) -> (memory: Vec<u8>)
    ensures
        memory@ == blank(size as nat),
{
    let mut memory: Vec<u8> = Vec::new();
    let mut filled: usize = 0;
    while filled < size
        invariant
            filled <= size,
            memory@ =~= blank(filled as nat),
        decreases size - filled,
    {
        memory.push(0);
        filled += 1;
    }
    memory
}

} // verus!
