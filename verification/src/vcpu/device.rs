//! Memory-like devices. Each owns a range of bus addresses and answers reads
//! and writes inside it; outside it declines, so that the bus can ask the next
//! device.

use self::bios::{bda_byte, bda_word, BDAData};
use self::vga::{cell_bytes, cells_with_byte, cells_with_word, screen_byte, screen_word, takes_word, VGACharacter};
use vstd::prelude::*;

pub mod bios;
pub mod map;
pub mod ram;
pub mod rom;
pub mod vga;

verus! {

/// What a device answers to one access.
#[derive(PartialEq, Eq, Debug)]
pub enum DeviceResponse<T> {
    /// The access was served.
    Served(T),
    /// The address is not one that this device answers for.
    NotMyAddress,
    /// The device owns the address and cannot be written.
    ReadOnly,
    /// The device owns the address and cannot be read.
    WriteOnly,
    /// The device owns the address and has nothing behind it, or cannot take
    /// an access of this width there.
    InvalidAddress,
}

impl<T> DeviceResponse<T> {
    /// The same answer without the value that was read.
    pub open spec fn erased(self) -> DeviceResponse<()> {
        match self {
            DeviceResponse::Served(_) => DeviceResponse::Served(()),
            DeviceResponse::NotMyAddress => DeviceResponse::NotMyAddress,
            DeviceResponse::ReadOnly => DeviceResponse::ReadOnly,
            DeviceResponse::WriteOnly => DeviceResponse::WriteOnly,
            DeviceResponse::InvalidAddress => DeviceResponse::InvalidAddress,
        }
    }

    /// The same answer without the value that was read.
    pub fn erase(self) -> (erased: DeviceResponse<()>)
        ensures
            erased == self.erased(),
    {
        match self {
            DeviceResponse::Served(_) => DeviceResponse::Served(()),
            DeviceResponse::NotMyAddress => DeviceResponse::NotMyAddress,
            DeviceResponse::ReadOnly => DeviceResponse::ReadOnly,
            DeviceResponse::WriteOnly => DeviceResponse::WriteOnly,
            DeviceResponse::InvalidAddress => DeviceResponse::InvalidAddress,
        }
    }
}

/// The word that two bytes make, the high byte first.
pub open spec fn word_of(high: u8, low: u8) -> u16 {
    (high as int * 256 + low as int) as u16
}

/// The high byte of a word.
pub open spec fn high_byte(word: u16) -> u8 {
    (word as int / 256) as u8
}

/// The low byte of a word.
pub open spec fn low_byte(word: u16) -> u8 {
    (word as int % 256) as u8
}

/// The word that two bytes make, the high byte first.
pub fn make_word(high: u8, low: u8) -> (word: u16)
    ensures
        word == word_of(high, low),
        high_byte(word) == high,
        low_byte(word) == low,
{
    (high as u16) * 256 + (low as u16)
}

/// The two bytes of a word, the high byte first.
pub fn split_word(word: u16) -> (bytes: (u8, u8))
    ensures
        bytes.0 == high_byte(word),
        bytes.1 == low_byte(word),
        word_of(bytes.0, bytes.1) == word,
{
    ((word / 256) as u8, (word % 256) as u8)
}

/// The word stored at `at` in a byte store, the high byte first; no answer
/// where the store does not hold both bytes.
pub open spec fn stored_word(memory: Seq<u8>, at: int) -> DeviceResponse<u16> {
    if 0 <= at && at + 1 < memory.len() {
        DeviceResponse::Served(word_of(memory[at], memory[at + 1]))
    } else {
        DeviceResponse::InvalidAddress
    }
}

/// The byte stored at `at` in a byte store.
pub open spec fn stored_byte(memory: Seq<u8>, at: int) -> DeviceResponse<u8> {
    if 0 <= at < memory.len() {
        DeviceResponse::Served(memory[at])
    } else {
        DeviceResponse::InvalidAddress
    }
}

/// A byte store after `word` was stored at `at`, the high byte first. A store
/// that does not hold both bytes stays as it is.
pub open spec fn with_word(memory: Seq<u8>, at: int, word: u16) -> Seq<u8> {
    if 0 <= at && at + 1 < memory.len() {
        memory.update(at, high_byte(word)).update(at + 1, low_byte(word))
    } else {
        memory
    }
}

/// A byte store after `byte` was stored at `at`.
pub open spec fn with_byte(memory: Seq<u8>, at: int, byte: u8) -> Seq<u8> {
    if 0 <= at < memory.len() {
        memory.update(at, byte)
    } else {
        memory
    }
}

/// What a device is, as far as the bus can tell: the range it owns and what it
/// holds.
pub enum DeviceModel {
    Rom { start: u32, end: u32, memory: Seq<u8> },
    Ram { start: u32, end: u32, memory: Seq<u8>, name: Seq<char> },
    Bios { start: u32, end: u32, data: Seq<BDAData> },
    Vga { start: u32, end: u32, cells: Seq<VGACharacter> },
}

impl DeviceModel {
    /// The first address of the device.
    pub open spec fn start(self) -> u32 {
        match self {
            DeviceModel::Rom { start, .. } => start,
            DeviceModel::Ram { start, .. } => start,
            DeviceModel::Bios { start, .. } => start,
            DeviceModel::Vga { start, .. } => start,
        }
    }

    /// The last address of the device.
    pub open spec fn end(self) -> u32 {
        match self {
            DeviceModel::Rom { end, .. } => end,
            DeviceModel::Ram { end, .. } => end,
            DeviceModel::Bios { end, .. } => end,
            DeviceModel::Vga { end, .. } => end,
        }
    }

    /// Whether `addr` lies in the range of the device.
    pub open spec fn owns(self, addr: u32) -> bool {
        self.start() <= addr <= self.end()
    }

    /// The answer to a read of the word at `addr`.
    pub open spec fn read(self, addr: u32) -> DeviceResponse<u16> {
        if !self.owns(addr) {
            DeviceResponse::NotMyAddress
        } else {
            match self {
                DeviceModel::Rom { start, memory, .. } => stored_word(memory, addr - start),
                DeviceModel::Ram { start, memory, .. } => stored_word(memory, addr - start),
                DeviceModel::Bios { start, data, .. } => bda_word(data, addr - start),
                DeviceModel::Vga { start, cells, .. } => screen_word(cells, addr - start),
            }
        }
    }

    /// The answer to a read of the byte at `addr`.
    pub open spec fn read_byte(self, addr: u32) -> DeviceResponse<u8> {
        if !self.owns(addr) {
            DeviceResponse::NotMyAddress
        } else {
            match self {
                DeviceModel::Rom { start, memory, .. } => stored_byte(memory, addr - start),
                DeviceModel::Ram { start, memory, .. } => stored_byte(memory, addr - start),
                DeviceModel::Bios { start, data, .. } => bda_byte(data, addr - start),
                DeviceModel::Vga { start, cells, .. } => screen_byte(cells, addr - start),
            }
        }
    }

    /// The answer to a write of `value` to the word at `addr`.
    pub open spec fn write(self, addr: u32, value: u16) -> DeviceResponse<()> {
        if !self.owns(addr) {
            DeviceResponse::NotMyAddress
        } else {
            match self {
                DeviceModel::Rom { .. } => DeviceResponse::ReadOnly,
                DeviceModel::Bios { .. } => DeviceResponse::ReadOnly,
                DeviceModel::Ram { start, memory, .. } => stored_word(memory, addr - start).erased(),
                DeviceModel::Vga { start, cells, .. } => if takes_word(cells, addr - start) {
                    DeviceResponse::Served(())
                } else {
                    DeviceResponse::InvalidAddress
                },
            }
        }
    }

    /// The device after a write of `value` to the word at `addr`. Only a write
    /// that is answered with `Served` changes it.
    pub open spec fn after_write(self, addr: u32, value: u16) -> DeviceModel {
        if !self.owns(addr) {
            self
        } else {
            match self {
                DeviceModel::Rom { .. } => self,
                DeviceModel::Bios { .. } => self,
                DeviceModel::Ram { start, end, memory, name } => DeviceModel::Ram {
                    start,
                    end,
                    memory: with_word(memory, addr - start, value),
                    name,
                },
                DeviceModel::Vga { start, end, cells } => DeviceModel::Vga {
                    start,
                    end,
                    cells: cells_with_word(cells, addr - start, value),
                },
            }
        }
    }

    /// The answer to a write of `value` to the byte at `addr`.
    pub open spec fn write_byte(self, addr: u32, value: u8) -> DeviceResponse<()> {
        if !self.owns(addr) {
            DeviceResponse::NotMyAddress
        } else {
            match self {
                DeviceModel::Rom { .. } => DeviceResponse::ReadOnly,
                DeviceModel::Bios { .. } => DeviceResponse::ReadOnly,
                DeviceModel::Ram { start, memory, .. } => stored_byte(memory, addr - start).erased(),
                DeviceModel::Vga { start, cells, .. } => if (addr - start) / 2 < cells.len() {
                    DeviceResponse::Served(())
                } else {
                    DeviceResponse::InvalidAddress
                },
            }
        }
    }

    /// The device after a write of `value` to the byte at `addr`.
    pub open spec fn after_write_byte(self, addr: u32, value: u8) -> DeviceModel {
        if !self.owns(addr) {
            self
        } else {
            match self {
                DeviceModel::Rom { .. } => self,
                DeviceModel::Bios { .. } => self,
                DeviceModel::Ram { start, end, memory, name } => DeviceModel::Ram {
                    start,
                    end,
                    memory: with_byte(memory, addr - start, value),
                    name,
                },
                DeviceModel::Vga { start, end, cells } => DeviceModel::Vga {
                    start,
                    end,
                    cells: cells_with_byte(cells, addr - start, value),
                },
            }
        }
    }

    /// The name under which the device writes its memory out.
    pub open spec fn name(self) -> Seq<char> {
        match self {
            DeviceModel::Rom { .. } => "ROM"@,
            DeviceModel::Ram { name, .. } => name,
            DeviceModel::Bios { .. } => "BIOS"@,
            DeviceModel::Vga { .. } => "VGA"@,
        }
    }

    /// The bytes that the device writes out as its memory.
    pub open spec fn dump(self) -> Seq<u8> {
        match self {
            DeviceModel::Rom { memory, .. } => memory,
            DeviceModel::Ram { memory, .. } => memory,
            DeviceModel::Bios { .. } => Seq::empty(),
            DeviceModel::Vga { cells, .. } => cell_bytes(cells, cells.len() as int),
        }
    }
}

/// A device on the bus. Every answer is the one that the model of the device
/// gives, and a write leaves the device as the model says.
pub trait Device: View<V = DeviceModel> + Sized {
    fn read(&self, addr: u32) -> (response: DeviceResponse<u16>)
        ensures
            response == self@.read(addr),
    ;

    fn read_byte(&self, addr: u32) -> (response: DeviceResponse<u8>)
        ensures
            response == self@.read_byte(addr),
    ;

    fn write(&mut self, addr: u32, value: u16) -> (response: DeviceResponse<()>)
        ensures
            response == old(self)@.write(addr, value),
            final(self)@ == old(self)@.after_write(addr, value),
    ;

    fn write_byte(&mut self, addr: u32, value: u8) -> (response: DeviceResponse<()>)
        ensures
            response == old(self)@.write_byte(addr, value),
            final(self)@ == old(self)@.after_write_byte(addr, value),
    ;

    fn get_name(&self) -> (name: String)
        ensures
            name@ == self@.name(),
    ;

    fn get_memory(&self) -> (bytes: Vec<u8>)
        ensures
            bytes@ == self@.dump(),
    ;
}

} // verus!
