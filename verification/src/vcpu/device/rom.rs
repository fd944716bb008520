//! Read-only memory.

use super::{make_word, Device, DeviceModel, DeviceResponse};
use vstd::prelude::*;

verus! {

/// A block of read-only memory that answers the addresses from `start` to
/// `end`.
pub struct Rom {
    pub memory: Vec<u8>,
    pub start: u32,
    pub end: u32,
}

impl View for Rom {
    type V = DeviceModel;

    open spec fn view(&self) -> DeviceModel {
        DeviceModel::Rom { start: self.start, end: self.end, memory: self.memory@ }
    }
}

/// The first `size` bytes of `image`, followed by zero bytes where the image
/// is shorter than that.
pub open spec fn rom_contents(image: Seq<u8>, size: nat) -> Seq<u8> {
    Seq::new(size, |i: int| if i < image.len() { image[i] } else { 0u8 })
}

/// The first `size` bytes of `memory`, followed by zero bytes where it is
/// shorter than that.
pub fn fitted(memory: Vec<u8>, size: usize) -> (contents: Vec<u8>)
    ensures
        contents@ == rom_contents(memory@, size as nat),
{
    let mut contents = memory;
    contents.truncate(size);
    while contents.len() < size
        invariant
            contents.len() <= size,
            contents.len() >= memory.len() || contents.len() >= size,
            contents@ =~= rom_contents(memory@, contents.len() as nat),
        decreases size - contents.len(),
    {
        contents.push(0);
    }
    contents
}

impl Rom {
    /// Read-only memory of `size` bytes that begins at `start` and holds
    /// `memory` at its beginning. What of `memory` lies past `size` is left
    /// out; what is missing up to `size` reads as zero.
    pub fn new(memory: Vec<u8>, start: u32, size: u32) -> (rom: Rom)
        requires
            size > 0,
            start + size - 1 <= u32::MAX,
        ensures
            rom.start == start,
            rom.end == start + size - 1,
            rom.memory@ == rom_contents(memory@, size as nat),
    {
        let contents = fitted(memory, size as usize);
        Rom { memory: contents, start, end: start + (size - 1) }
    }

    /// Where `addr` lies in the memory, counted from its first byte.
    fn relative(&self, addr: u32) -> (at: usize)
        requires
            self.start <= addr,
        ensures
            at == addr - self.start,
    {
        (addr - self.start) as usize
    }
}

impl Device for Rom {
    fn read(&self, addr: u32) -> (response: DeviceResponse<u16>) {
        if addr >= self.start && addr <= self.end {
            let at = self.relative(addr);
            if at < self.memory.len() && at + 1 < self.memory.len() {
                return DeviceResponse::Served(make_word(self.memory[at], self.memory[at + 1]));
            }
            return DeviceResponse::InvalidAddress;
        }
        DeviceResponse::NotMyAddress
    }

    fn read_byte(&self, addr: u32) -> (response: DeviceResponse<u8>) {
        if addr >= self.start && addr <= self.end {
            let at = self.relative(addr);
            if at < self.memory.len() {
                return DeviceResponse::Served(self.memory[at]);
            }
            return DeviceResponse::InvalidAddress;
        }
        DeviceResponse::NotMyAddress
    }

    fn write(&mut self, addr: u32, _value: u16) -> (response: DeviceResponse<()>) {
        if addr >= self.start && addr <= self.end {
            return DeviceResponse::ReadOnly;
        }
        DeviceResponse::NotMyAddress
    }

    fn write_byte(&mut self, addr: u32, _value: u8) -> (response: DeviceResponse<()>) {
        if addr >= self.start && addr <= self.end {
            return DeviceResponse::ReadOnly;
        }
        DeviceResponse::NotMyAddress
    }

    fn get_name(&self) -> (name: String) {
        String::from_str("ROM")
    }

    fn get_memory(&self) -> (bytes: Vec<u8>) {
        self.memory.clone()
    }
}

} // verus!
