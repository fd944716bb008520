//! Read-write memory.

use super::{make_word, split_word, Device, DeviceModel, DeviceResponse};
use vstd::prelude::*;

verus! {

/// A block of read-write memory that answers the addresses from `start` to
/// `end`.
pub struct Ram {
    pub memory: Vec<u8>,
    pub start: u32,
    pub end: u32,
    pub name: String,
}

impl View for Ram {
    type V = DeviceModel;

    open spec fn view(&self) -> DeviceModel {
        DeviceModel::Ram {
            start: self.start,
            end: self.end,
            memory: self.memory@,
            name: self.name@,
        }
    }
}

/// Whether a device is a RAM with a byte behind every address that it owns.
pub open spec fn is_whole(device: DeviceModel) -> bool {
    device is Ram && device.start() <= device.end() && device->Ram_memory.len() == device.end()
        - device.start() + 1
}

/// A RAM with a byte behind every address that it owns serves every one of
/// them: a byte is read and written at each, and a word at each but the
/// last, whose second byte the RAM does not own. What is written is what is
/// read afterwards.
pub proof fn lemma_whole_ram_serves(device: DeviceModel, addr: u32, word: u16, byte: u8)
    requires
        is_whole(device),
        device.owns(addr),
    ensures
        device.read_byte(addr) is Served,
        device.write_byte(addr, byte) is Served,
        device.after_write_byte(addr, byte).read_byte(addr) == DeviceResponse::Served(byte),
        is_whole(device.after_write_byte(addr, byte)),
        addr < device.end() ==> device.read(addr) is Served && device.write(addr, word) is Served
            && device.after_write(addr, word).read(addr) == DeviceResponse::Served(word)
            && is_whole(device.after_write(addr, word)),
        addr == device.end() ==> device.read(addr) is InvalidAddress && device.write(addr, word)
            is InvalidAddress && device.after_write(addr, word) == device,
{
}

impl Ram {
    /// Memory named "RAM" that answers the addresses from `start` to `end`,
    /// both of them too, with a zero byte behind each of them.
    pub fn new(start: u32, end: u32) -> (ram: Ram)
        requires
            start <= end,
        ensures
            ram.start == start,
            ram.end == end,
            ram.memory@ == Seq::new((end - start + 1) as nat, |i: int| 0u8),
            ram.name@ == "RAM"@,
            is_whole(ram@),
            forall|addr: u32| start <= addr <= end ==> #[trigger] ram@.read_byte(addr)
                == DeviceResponse::Served(0u8),
    {
        let size: u64 = (end - start) as u64 + 1;
        let mut memory: Vec<u8> = Vec::new();
        let mut filled: u64 = 0;
        while filled < size
            invariant
                filled <= size,
                memory@ == Seq::new(filled as nat, |i: int| 0u8),
            decreases size - filled,
        {
            memory.push(0);
            filled += 1;
        }
        Ram { memory, start, end, name: String::from_str("RAM") }
    }

    /// Gives the memory another name.
    pub fn set_name(&mut self, name: String)
        ensures
            final(self).name == name,
            final(self).memory == old(self).memory,
            final(self).start == old(self).start,
            final(self).end == old(self).end,
    {
        self.name = name;
    }

    /// Where `addr` lies in the memory, counted from its first byte.
    fn relative(&self, addr: u32) -> (at: usize)
        requires
            self.start <= addr,
        ensures
            at == addr - self.start,
    {
        (addr - self.start) as usize
    }
}

impl Device for Ram {
    fn read(&self, addr: u32) -> (response: DeviceResponse<u16>) {
        if addr >= self.start && addr <= self.end {
            let at = self.relative(addr);
            if at < self.memory.len() && at + 1 < self.memory.len() {
                return DeviceResponse::Served(make_word(self.memory[at], self.memory[at + 1]));
            }
            return DeviceResponse::InvalidAddress;
        }
        DeviceResponse::NotMyAddress
    }

    fn read_byte(&self, addr: u32) -> (response: DeviceResponse<u8>) {
        if addr >= self.start && addr <= self.end {
            let at = self.relative(addr);
            if at < self.memory.len() {
                return DeviceResponse::Served(self.memory[at]);
            }
            return DeviceResponse::InvalidAddress;
        }
        DeviceResponse::NotMyAddress
    }

    fn write(&mut self, addr: u32, value: u16) -> (response: DeviceResponse<()>) {
        if addr >= self.start && addr <= self.end {
            let at = self.relative(addr);
            if at < self.memory.len() && at + 1 < self.memory.len() {
                let (high, low) = split_word(value);
                self.memory.set(at, high);
                self.memory.set(at + 1, low);
                return DeviceResponse::Served(());
            }
            return DeviceResponse::InvalidAddress;
        }
        DeviceResponse::NotMyAddress
    }

    fn write_byte(&mut self, addr: u32, value: u8) -> (response: DeviceResponse<()>) {
        if addr >= self.start && addr <= self.end {
            let at = self.relative(addr);
            if at < self.memory.len() {
                self.memory.set(at, value);
                return DeviceResponse::Served(());
            }
            return DeviceResponse::InvalidAddress;
        }
        DeviceResponse::NotMyAddress
    }

    fn get_name(&self) -> (name: String) {
        self.name.clone()
    }

    fn get_memory(&self) -> (bytes: Vec<u8>) {
        self.memory.clone()
    }
}

} // verus!
