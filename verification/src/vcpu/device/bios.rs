//! The BIOS data area: a read-only device through which the processor sees
//! the state of the keyboard.

use super::{Device, DeviceModel, DeviceResponse};
use vstd::prelude::*;

verus! {

/// A modifier key, or a lock, of the keyboard.
#[allow(clippy::upper_case_acronyms)]
#[derive(Debug, Clone, Copy, PartialEq, Eq, Structural)]
pub enum KeyboardFlag {
    INSERT,
    CAPS,
    NUM,
    SCROLL,
    ALT,
    CONTROL,
    LSHIFT,
    RSHIFT,
}

impl KeyboardFlag {
    /// The bit that stands for the key.
    pub open spec fn mask(self) -> u32 {
        match self {
            KeyboardFlag::INSERT => 0b10000000,
            KeyboardFlag::CAPS => 0b01000000,
            KeyboardFlag::NUM => 0b00100000,
            KeyboardFlag::SCROLL => 0b00010000,
            KeyboardFlag::ALT => 0b00001000,
            KeyboardFlag::CONTROL => 0b00000100,
            KeyboardFlag::LSHIFT => 0b00000010,
            KeyboardFlag::RSHIFT => 0b00000001,
        }
    }

    /// The bit that stands for the key.
    pub fn bit(self) -> (mask: u32)
        ensures
            mask == self.mask(),
    {
        match self {
            KeyboardFlag::INSERT => 0b10000000,
            KeyboardFlag::CAPS => 0b01000000,
            KeyboardFlag::NUM => 0b00100000,
            KeyboardFlag::SCROLL => 0b00010000,
            KeyboardFlag::ALT => 0b00001000,
            KeyboardFlag::CONTROL => 0b00000100,
            KeyboardFlag::LSHIFT => 0b00000010,
            KeyboardFlag::RSHIFT => 0b00000001,
        }
    }
}

/// The state of the modifier keys, one bit each.
#[derive(Debug, Clone, Copy, PartialEq, Eq, Structural)]
pub struct KeyboardFlags {
    pub bits: u32,
}

impl KeyboardFlags {
    /// No key down.
    pub fn empty() -> (flags: KeyboardFlags)
        ensures
            flags.bits == 0,
    {
        KeyboardFlags { bits: 0 }
    }

    /// The flags as a number.
    pub fn bits(&self) -> (bits: u32)
        ensures
            bits == self.bits,
    {
        self.bits
    }

    /// The flags with the bit of `flag` switched on or off.
    pub open spec fn with(self, flag: KeyboardFlag, value: bool) -> KeyboardFlags {
        if value {
            KeyboardFlags { bits: self.bits | flag.mask() }
        } else {
            KeyboardFlags { bits: self.bits & !flag.mask() }
        }
    }

    /// Whether the bit of `flag` is on.
    pub open spec fn has(self, flag: KeyboardFlag) -> bool {
        self.bits & flag.mask() == flag.mask()
    }

    /// Whether the bit of `flag` is on.
    pub fn contains(&self, flag: KeyboardFlag) -> (on: bool)
        ensures
            on == self.has(flag),
    {
        let mask = flag.bit();
        self.bits & mask == mask
    }

    /// Switches the bit of `flag` on or off.
    pub fn set(&mut self, flag: KeyboardFlag, value: bool)
        ensures
            *final(self) == old(self).with(flag, value),
    {
        let mask = flag.bit();
        if value {
            self.bits = self.bits | mask;
        } else {
            self.bits = self.bits & !mask;
        }
    }
}

/// One entry of the data area: what it holds, and the offsets inside the area,
/// from `range_start` up to but not including `range_end`, under which it is
/// read.
#[allow(inconsistent_fields)]
#[derive(Debug, Clone, Copy, PartialEq, Eq, Structural)]
pub enum BDAData {
    KeyboardShiftFlags { read_only: bool, data: KeyboardFlags, range_start: u8, range_end: u8 },
    KeyboardBuffer { read_only: bool, data: u8, range_start: u8, range_end: u8 },
}

impl BDAData {
    /// The entry as a word.
    pub open spec fn value(self) -> u16 {
        match self {
            BDAData::KeyboardShiftFlags { data, .. } => (data.bits as int % 0x10000) as u16,
            BDAData::KeyboardBuffer { data, .. } => data as u16,
        }
    }

    /// Whether the entry is read under `offset`.
    pub open spec fn covers(self, offset: int) -> bool {
        match self {
            BDAData::KeyboardShiftFlags { range_start, range_end, .. } => range_start <= offset
                < range_end,
            BDAData::KeyboardBuffer { range_start, range_end, .. } => range_start <= offset
                < range_end,
        }
    }
}

/// The first entry at or after position `from` that is read under `offset`.
pub open spec fn entry_at(data: Seq<BDAData>, offset: int, from: int) -> Option<BDAData>
    decreases data.len() - from,
{
    if from < 0 || from >= data.len() {
        None
    } else if data[from].covers(offset) {
        Some(data[from])
    } else {
        entry_at(data, offset, from + 1)
    }
}

/// The position of the first keyboard buffer at or after position `from`.
pub open spec fn first_buffer(data: Seq<BDAData>, from: int) -> Option<int>
    decreases data.len() - from,
{
    if from < 0 || from >= data.len() {
        None
    } else if data[from] is KeyboardBuffer {
        Some(from)
    } else {
        first_buffer(data, from + 1)
    }
}

/// The position of the first entry of shift flags at or after position `from`.
pub open spec fn first_shift_flags(data: Seq<BDAData>, from: int) -> Option<int>
    decreases data.len() - from,
{
    if from < 0 || from >= data.len() {
        None
    } else if data[from] is KeyboardShiftFlags {
        Some(from)
    } else {
        first_shift_flags(data, from + 1)
    }
}

/// What a read of the word at `offset` of the data area gives.
pub open spec fn bda_word(data: Seq<BDAData>, offset: int) -> DeviceResponse<u16> {
    match entry_at(data, offset, 0) {
        Some(entry) => DeviceResponse::Served(entry.value()),
        None => DeviceResponse::NotMyAddress,
    }
}

/// What a read of the byte at `offset` of the data area gives: under an even
/// offset the entry shifted right by four bits, under an odd one the entry
/// itself, each cut to its low eight bits.
pub open spec fn bda_byte(data: Seq<BDAData>, offset: int) -> DeviceResponse<u8> {
    match entry_at(data, offset, 0) {
        Some(entry) => if offset % 2 == 0 {
            DeviceResponse::Served(((entry.value() as int / 16) % 256) as u8)
        } else {
            DeviceResponse::Served((entry.value() as int % 256) as u8)
        },
        None => DeviceResponse::NotMyAddress,
    }
}

/// The entries of the data area.
#[derive(Debug)]
#[allow(clippy::upper_case_acronyms)]
pub struct BDA {
    pub memory: Vec<BDAData>,
}

impl BDA {
    /// The data area of a keyboard at rest: no modifier down under the
    /// offsets 22 to 29, no key in the buffer under the offsets 60 to 67.
    pub fn new() -> (bda: BDA)
        ensures
            bda.memory@ == seq![
                (BDAData::KeyboardShiftFlags {
                    read_only: true,
                    data: (KeyboardFlags { bits: 0 }),
                    range_start: 22,
                    range_end: 30,
                }),
                (BDAData::KeyboardBuffer { read_only: true, data: 0, range_start: 60, range_end: 68 }),
            ],
    {
        let mut memory: Vec<BDAData> = Vec::new();
        memory.push(
            BDAData::KeyboardShiftFlags {
                read_only: true,
                data: KeyboardFlags::empty(),
                range_start: 22,
                range_end: 30,
            },
        );
        memory.push(
            BDAData::KeyboardBuffer { read_only: true, data: 0, range_start: 60, range_end: 68 },
        );
        proof {
            assert(memory@ =~= seq![
                (BDAData::KeyboardShiftFlags {
                    read_only: true,
                    data: (KeyboardFlags { bits: 0 }),
                    range_start: 22,
                    range_end: 30,
                }),
                (BDAData::KeyboardBuffer { read_only: true, data: 0, range_start: 60, range_end: 68 }),
            ]);
        }
        BDA { memory }
    }
}

/// The BIOS: 256 addresses from `start` on, with the data area behind them.
#[derive(Debug)]
#[allow(clippy::upper_case_acronyms)]
pub struct BIOS {
    pub start: u32,
    pub end: u32,
    pub bda: BDA,
}

/// Why the BIOS could not take a value.
#[derive(Debug, Clone, Copy, PartialEq, Eq, Structural)]
pub enum BIOSError {
    /// The data area has no entry of the kind that was to be set.
    NoDataSection,
}

impl View for BIOS {
    type V = DeviceModel;

    open spec fn view(&self) -> DeviceModel {
        DeviceModel::Bios { start: self.start, end: self.end, data: self.bda.memory@ }
    }
}

impl BIOS {
    /// A BIOS at the addresses `start` to `start + 0xFF`, the keyboard at
    /// rest.
    pub fn new(start: u32) -> (bios: BIOS)
        requires
            start + 0xFF <= u32::MAX,
        ensures
            bios.start == start,
            bios.end == start + 0xFF,
            bios.bda.memory@ == seq![
                (BDAData::KeyboardShiftFlags {
                    read_only: true,
                    data: (KeyboardFlags { bits: 0 }),
                    range_start: 22,
                    range_end: 30,
                }),
                (BDAData::KeyboardBuffer { read_only: true, data: 0, range_start: 60, range_end: 68 }),
            ],
    {
        BIOS { start, end: start + 0xFF, bda: BDA::new() }
    }

    /// The word, the offsets and the write protection of an entry.
    pub fn read_bda_data(data: &BDAData) -> (read: (u16, (u8, u8), bool))
        ensures
            read.0 == data.value(),
            forall|offset: int| data.covers(offset) <==> read.1.0 <= offset < read.1.1,
            read.2 == match *data {
                BDAData::KeyboardShiftFlags { read_only, .. } => read_only,
                BDAData::KeyboardBuffer { read_only, .. } => read_only,
            },
    {
        match data {
            BDAData::KeyboardShiftFlags { read_only, data, range_start, range_end } => (
                (data.bits() % 0x10000) as u16,
                (*range_start, *range_end),
                *read_only,
            ),
            BDAData::KeyboardBuffer { read_only, data, range_start, range_end } => (
                *data as u16,
                (*range_start, *range_end),
                *read_only,
            ),
        }
    }

    /// The word of the first entry that is read under `offset`.
    fn find_entry(&self, offset: u32) -> (found: Option<u16>)
        ensures
            found == match entry_at(self.bda.memory@, offset as int, 0) {
                Some(entry) => Some(entry.value()),
                None => None,
            },
    {
        let mut i: usize = 0;
        while i < self.bda.memory.len()
            invariant
                i <= self.bda.memory.len(),
                entry_at(self.bda.memory@, offset as int, 0) == entry_at(
                    self.bda.memory@,
                    offset as int,
                    i as int,
                ),
            decreases self.bda.memory.len() - i,
        {
            let (value, range, _) = BIOS::read_bda_data(&self.bda.memory[i]);
            if range.0 as u32 <= offset && offset < range.1 as u32 {
                return Some(value);
            }
            i += 1;
        }
        None
    }

    /// Puts `key` into the keyboard buffer: the first entry of that kind then
    /// holds it. Without such an entry nothing changes and the error says so.
    pub fn set_keyboard_buffer(&mut self, key: u8) -> (done: Result<(), BIOSError>)
        ensures
            final(self).start == old(self).start,
            final(self).end == old(self).end,
            match first_buffer(old(self).bda.memory@, 0) {
                Some(at) => done == Ok::<(), BIOSError>(()) && final(self).bda.memory@ == old(
                    self,
                ).bda.memory@.update(
                    at,
                    match old(self).bda.memory@[at] {
                        BDAData::KeyboardBuffer { read_only, range_start, range_end, .. } => (
                            BDAData::KeyboardBuffer { read_only, data: key, range_start, range_end }
                        ),
                        other => other,
                    },
                ),
                None => done == Err::<(), BIOSError>(BIOSError::NoDataSection) && final(self).bda.memory@
                    == old(self).bda.memory@,
            },
    {
        let mut i: usize = 0;
        while i < self.bda.memory.len()
            invariant
                i <= self.bda.memory.len(),
                *self == *old(self),
                first_buffer(self.bda.memory@, 0) == first_buffer(self.bda.memory@, i as int),
            decreases self.bda.memory.len() - i,
        {
            match self.bda.memory[i] {
                BDAData::KeyboardBuffer { read_only, data: _, range_start, range_end } => {
                    self.bda.memory.set(
                        i,
                        BDAData::KeyboardBuffer { read_only, data: key, range_start, range_end },
                    );
                    return Ok(());
                },
                _ => {},
            }
            i += 1;
        }
        Err(BIOSError::NoDataSection)
    }

    /// Switches a modifier key on or off in the first entry of shift flags.
    /// Without such an entry nothing changes and the error says so.
    pub fn set_keyboard_flag(&mut self, flag: KeyboardFlag, value: bool) -> (done: Result<
        (),
        BIOSError,
    >)
        ensures
            final(self).start == old(self).start,
            final(self).end == old(self).end,
            match first_shift_flags(old(self).bda.memory@, 0) {
                Some(at) => done == Ok::<(), BIOSError>(()) && final(self).bda.memory@ == old(
                    self,
                ).bda.memory@.update(
                    at,
                    match old(self).bda.memory@[at] {
                        BDAData::KeyboardShiftFlags { read_only, data, range_start, range_end } => (
                            BDAData::KeyboardShiftFlags {
                                read_only,
                                data: data.with(flag, value),
                                range_start,
                                range_end,
                            }
                        ),
                        other => other,
                    },
                ),
                None => done == Err::<(), BIOSError>(BIOSError::NoDataSection) && final(self).bda.memory@
                    == old(self).bda.memory@,
            },
    {
        let mut i: usize = 0;
        while i < self.bda.memory.len()
            invariant
                i <= self.bda.memory.len(),
                *self == *old(self),
                first_shift_flags(self.bda.memory@, 0) == first_shift_flags(
                    self.bda.memory@,
                    i as int,
                ),
            decreases self.bda.memory.len() - i,
        {
            match self.bda.memory[i] {
                BDAData::KeyboardShiftFlags { read_only, data, range_start, range_end } => {
                    let mut mod_flags = data;
                    mod_flags.set(flag, value);
                    self.bda.memory.set(
                        i,
                        BDAData::KeyboardShiftFlags {
                            read_only,
                            data: mod_flags,
                            range_start,
                            range_end,
                        },
                    );
                    return Ok(());
                },
                _ => {},
            }
            i += 1;
        }
        Err(BIOSError::NoDataSection)
    }
}

impl Device for BIOS {
    fn read(&self, addr: u32) -> (response: DeviceResponse<u16>) {
        if addr >= self.start && addr <= self.end {
            return match self.find_entry(addr - self.start) {
                Some(value) => DeviceResponse::Served(value),
                None => DeviceResponse::NotMyAddress,
            };
        }
        DeviceResponse::NotMyAddress
    }

    fn read_byte(&self, addr: u32) -> (response: DeviceResponse<u8>) {
        if addr >= self.start && addr <= self.end {
            let offset = addr - self.start;
            return match self.find_entry(offset) {
                Some(value) => if offset % 2 == 0 {
                    DeviceResponse::Served(((value / 16) % 256) as u8)
                } else {
                    DeviceResponse::Served((value % 256) as u8)
                },
                None => DeviceResponse::NotMyAddress,
            };
        }
        DeviceResponse::NotMyAddress
    }

    fn write(&mut self, addr: u32, _value: u16) -> (response: DeviceResponse<()>) {
        if addr >= self.start && addr <= self.end {
            return DeviceResponse::ReadOnly;
        }
        DeviceResponse::NotMyAddress
    }

    fn write_byte(&mut self, addr: u32, _value: u8) -> (response: DeviceResponse<()>) {
        if addr >= self.start && addr <= self.end {
            return DeviceResponse::ReadOnly;
        }
        DeviceResponse::NotMyAddress
    }

    fn get_name(&self) -> (name: String) {
        String::from_str("BIOS")
    }

    fn get_memory(&self) -> (bytes: Vec<u8>) {
        Vec::new()
    }
}

} // verus!
