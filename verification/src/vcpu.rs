//! The virtual processor and the devices on its bus, and the machine that
//! they make together.
//!
//! The memory map of the machine:
//!
//! | addresses         | device                         |
//! |-------------------|--------------------------------|
//! | 0x0000 - 0x0400   | the interrupt vectors, in RAM  |
//! | 0x0401 - 0x4401   | RAM                            |
//! | 0x4402 - 0x4801   | the program, in ROM            |
//! | 0x4803 - 0x4C03   | the stack, in RAM              |
//! | 0x4C04 - 0x4D03   | the BIOS                       |
//! | 0xA000 - 0xAF9F   | the screen                     |

pub mod cpu;
pub mod device;
pub mod laws;

use self::cpu::{ticked, CpuState, Fault, IrqPin, Pins, Ticked, CPU};
use self::device::bios::{first_buffer, first_shift_flags, BDAData, BIOSError, KeyboardFlag, BIOS};
use self::device::map::AnyDevice;
use self::device::ram::Ram;
use self::device::rom::{fitted, rom_contents, Rom};
use self::device::vga::VGA;
use self::device::DeviceModel;
use vstd::prelude::*;

verus! {

/// The address of the first byte of the program memory, where a processor
/// begins to run unless an image says otherwise.
pub const PROGRAM_START: u16 = 0x4402;

/// The number of bytes of the program memory.
pub const PROGRAM_SIZE: u32 = 0x400;

/// The address at which the stack begins.
pub const STACK_START: u16 = 0x4803;

/// The number of bytes of the interrupt vectors in an image.
pub const VECTOR_BYTES: usize = 510;

/// The number of bytes of an image before its code.
pub const HEADER_BYTES: usize = 6;

/// Why bytes are no image.
#[derive(Debug, Clone, Copy, PartialEq, Eq, Structural)]
pub enum ImageError {
    /// Fewer than the six bytes of the header.
    NoHeader,
    /// Not as many bytes as the header announces, with the interrupt vectors
    /// behind them.
    Truncated,
}

/// The parts of an image.
pub struct Image {
    /// The address of the first instruction to run.
    pub entry: u16,
    /// What the program memory holds: the data, and the code behind it.
    pub program: Vec<u8>,
    /// The interrupt vectors, two bytes each.
    pub vectors: Vec<u8>,
}

/// The number that two bytes at position `at` spell, the high byte first.
pub open spec fn word_in(bytes: Seq<u8>, at: int) -> int {
    bytes[at] as int * 256 + bytes[at + 1] as int
}

/// The length of the code that the header of an image announces.
pub open spec fn code_length(bytes: Seq<u8>) -> int {
    word_in(bytes, 0)
}

/// The length of the data that the header of an image announces.
pub open spec fn data_length(bytes: Seq<u8>) -> int {
    word_in(bytes, 2)
}

/// Whether `bytes` are an image: a header, as much code and data as it
/// announces, and 510 bytes of interrupt vectors.
pub open spec fn is_image(bytes: Seq<u8>) -> bool {
    bytes.len() >= 6 && bytes.len() >= 6 + code_length(bytes) + data_length(bytes) + 510
}

/// Takes an image apart. The program memory gets the data first and the code
/// behind it, as the addresses of the labels expect it.
pub fn load_image(bytes: &Vec<u8>) -> (image: Result<Image, ImageError>)
    ensures
        match image {
            Ok(image) => {
                let code = code_length(bytes@);
                let data = data_length(bytes@);
                &&& is_image(bytes@)
                &&& image.entry == word_in(bytes@, 4)
                &&& image.program@ == bytes@.subrange(6 + code, 6 + code + data) + bytes@.subrange(
                    6,
                    6 + code,
                )
                &&& image.vectors@ == bytes@.subrange(6 + code + data, 6 + code + data + 510)
            },
            Err(ImageError::NoHeader) => bytes@.len() < 6,
            Err(ImageError::Truncated) => bytes@.len() >= 6 && !is_image(bytes@),
        },
{
    if bytes.len() < HEADER_BYTES {
        return Err(ImageError::NoHeader);
    }
    let code = bytes[0] as usize * 256 + bytes[1] as usize;
    let data = bytes[2] as usize * 256 + bytes[3] as usize;
    let entry = bytes[4] as u16 * 256 + bytes[5] as u16;
    if bytes.len() - HEADER_BYTES < code + data + VECTOR_BYTES {
        return Err(ImageError::Truncated);
    }
    let mut program = copy_range(bytes, HEADER_BYTES + code, HEADER_BYTES + code + data);
    let text = copy_range(bytes, HEADER_BYTES, HEADER_BYTES + code);
    crate::assembler::append(&mut program, &text);
    let vectors = copy_range(
        bytes,
        HEADER_BYTES + code + data,
        HEADER_BYTES + code + data + VECTOR_BYTES,
    );
    Ok(Image { entry, program, vectors })
}

/// The bytes from position `from` up to position `to`.
pub fn copy_range(bytes: &Vec<u8>, from: usize, to: usize) -> (part: Vec<u8>)
    requires
        from <= to <= bytes.len(),
    ensures
        part@ == bytes@.subrange(from as int, to as int),
{
    let mut part: Vec<u8> = Vec::new();
    let mut i: usize = from;
    while i < to
        invariant
            from <= i <= to <= bytes.len(),
            part@ =~= bytes@.subrange(from as int, i as int),
        decreases to - i,
    {
        part.push(bytes[i]);
        i += 1;
    }
    part
}

/// The devices of the machine in the order in which the bus asks them: the
/// screen, the interrupt vectors, the RAM, the program, the stack, the BIOS.
pub open spec fn machine_bus(program: Seq<u8>, vectors: Seq<u8>) -> Seq<DeviceModel> {
    seq![
        (DeviceModel::Vga {
            start: 0xA000,
            end: 0xAF9F,
            cells: Seq::new(2000, |i: int| self::device::vga::blank_cell()),
        }),
        (DeviceModel::Ram {
            start: 0x0000,
            end: 0x0400,
            memory: rom_contents(vectors, 0x401),
            name: "IVT"@,
        }),
        (DeviceModel::Ram {
            start: 0x0401,
            end: 0x4401,
            memory: Seq::new(0x4001, |i: int| 0u8),
            name: "RAM"@,
        }),
        (DeviceModel::Rom { start: 0x4402, end: 0x4801, memory: rom_contents(program, 0x400) }),
        (DeviceModel::Ram {
            start: 0x4803,
            end: 0x4C03,
            memory: Seq::new(0x401, |i: int| 0u8),
            name: "Stack"@,
        }),
        (DeviceModel::Bios {
            start: 0x4C04,
            end: 0x4D03,
            data: seq![
                (self::device::bios::BDAData::KeyboardShiftFlags {
                    read_only: true,
                    data: (self::device::bios::KeyboardFlags { bits: 0 }),
                    range_start: 22,
                    range_end: 30,
                }),
                (self::device::bios::BDAData::KeyboardBuffer {
                    read_only: true,
                    data: 0,
                    range_start: 60,
                    range_end: 68,
                }),
            ],
        }),
    ]
}

/// The position of the BIOS on the bus of the machine.
pub const BIOS_POSITION: usize = 5;

/// Builds the machine: a processor at reset that begins to run at `entry`,
/// its stack at the stack memory, and on its bus the devices of the memory
/// map. The program stands at the beginning of the ROM and the interrupt
/// vectors at the beginning of their RAM; what is left of either is zero,
/// and what does not fit is left out.
pub fn build(program: Vec<u8>, vectors: Vec<u8>, entry: u16, debug_mode: bool) -> (cpu: CPU)
    ensures
        cpu@ == (CpuState {
            bus: machine_bus(program@, vectors@),
            ..self::cpu::reset_state(entry, 0x4803, debug_mode)
        }),
{
    let mut ivt = Ram::new(0x0000, 0x0400);
    ivt.set_name(String::from_str("IVT"));
    ivt.memory = fitted(vectors, 0x401);
    let ram = Ram::new(0x0401, 0x4401);
    let rom = Rom::new(program, 0x4402, PROGRAM_SIZE);
    let mut stack = Ram::new(0x4803, 0x4C03);
    stack.set_name(String::from_str("Stack"));
    let bda = BIOS::new(0x4C04);
    let vga = VGA::new(0xA000);
    let mut cpu = CPU::new(entry, STACK_START, debug_mode);
    cpu.map.add(AnyDevice::Vga(vga));
    cpu.map.add(AnyDevice::Ram(ivt));
    cpu.map.add(AnyDevice::Ram(ram));
    cpu.map.add(AnyDevice::Rom(rom));
    cpu.map.add(AnyDevice::Ram(stack));
    cpu.map.add(AnyDevice::Bios(bda));
    assert(cpu@.bus =~= machine_bus(program@, vectors@));
    cpu
}

/// The processor after ticks until it halts, fails, or has made `limit`
/// ticks.
pub open spec fn ran(cpu: CpuState, pins: Pins, limit: nat) -> Ticked
    decreases limit,
{
    if limit == 0 || !cpu.running {
        Ticked { state: cpu, pins, fault: None }
    } else {
        let first = ticked(cpu, pins);
        if first.fault is Some {
            first
        } else {
            ran(first.state, first.pins, (limit - 1) as nat)
        }
    }
}

/// Ticks the processor until it halts or fails, and at most `limit` times.
/// Returns the pins as the last tick left them, or the fault that ended the
/// run.
pub fn run(cpu: &mut CPU, pins: Pins, limit: u64) -> (result: Result<Pins, Fault>)
    ensures
        final(cpu)@ == ran(old(cpu)@, pins, limit as nat).state,
        result == ran(old(cpu)@, pins, limit as nat).result(),
{
    let mut current = pins;
    let mut left = limit;
    while left > 0 && cpu.running
        invariant
            ran(old(cpu)@, pins, limit as nat) == ran(cpu@, current, left as nat),
        decreases left,
    {
        current = cpu.tick(current)?;
        left -= 1;
    }
    Ok(current)
}

/// A key of the keyboard that the machine knows.
#[derive(Debug, Clone, Copy, PartialEq, Eq, Structural)]
pub enum Key {
    Space,
    Ctrl,
    Shift,
    Period,
    Enter,
    Back,
    /// A digit key, 0 to 9.
    Digit(u8),
    /// A letter key, 0 for A to 25 for Z.
    Letter(u8),
}

/// A key going down or coming up.
#[derive(Debug, Clone, Copy, PartialEq, Eq, Structural)]
pub enum KeyEvent {
    Up(Key),
    Down(Key),
}

/// The character that a key types; `None` for a key that types none.
pub open spec fn typed(key: Key) -> Option<u8> {
    match key {
        Key::Space => Some(32u8),
        Key::Period => Some(46u8),
        Key::Enter => Some(10u8),
        Key::Back => Some(8u8),
        Key::Digit(digit) => if digit <= 9 {
            Some((48 + digit) as u8)
        } else {
            None
        },
        Key::Letter(letter) => if letter <= 25 {
            Some((65 + letter) as u8)
        } else {
            None
        },
        Key::Ctrl => None,
        Key::Shift => None,
    }
}

/// The character that a key types.
pub fn key_to_char(key: Key) -> (character: Option<u8>)
    ensures
        character == typed(key),
{
    match key {
        Key::Space => Some(32),
        Key::Period => Some(46),
        Key::Enter => Some(10),
        Key::Back => Some(8),
        Key::Digit(digit) => if digit <= 9 {
            Some(48 + digit)
        } else {
            None
        },
        Key::Letter(letter) => if letter <= 25 {
            Some(65 + letter)
        } else {
            None
        },
        Key::Ctrl => None,
        Key::Shift => None,
    }
}

/// What a key event asks of the machine.
#[derive(Debug, Clone, Copy, PartialEq, Eq, Structural)]
pub enum KeyAction {
    /// Switch a modifier on or off.
    Flag(KeyboardFlag, bool),
    /// Put a character into the keyboard buffer; with `true`, request the
    /// keyboard interrupt as well.
    Buffer(u8, bool),
    /// Nothing: the key types no character.
    Ignore,
}

/// What a key event asks of the machine. Control and shift switch their
/// modifier on when they go down and off when they come up. Any other key
/// puts its character into the keyboard buffer and requests interrupt 1 when
/// it goes down, and empties the buffer when it comes up.
pub open spec fn key_action(event: KeyEvent) -> KeyAction {
    match event {
        KeyEvent::Up(Key::Ctrl) => KeyAction::Flag(KeyboardFlag::CONTROL, false),
        KeyEvent::Up(Key::Shift) => KeyAction::Flag(KeyboardFlag::LSHIFT, false),
        KeyEvent::Up(_) => KeyAction::Buffer(0, false),
        KeyEvent::Down(Key::Ctrl) => KeyAction::Flag(KeyboardFlag::CONTROL, true),
        KeyEvent::Down(Key::Shift) => KeyAction::Flag(KeyboardFlag::LSHIFT, true),
        KeyEvent::Down(key) => match typed(key) {
            Some(character) => KeyAction::Buffer(character, true),
            None => KeyAction::Ignore,
        },
    }
}

/// What a key event asks of the machine.
pub fn decide_key(event: KeyEvent) -> (action: KeyAction)
    ensures
        action == key_action(event),
{
    match event {
        KeyEvent::Up(Key::Ctrl) => KeyAction::Flag(KeyboardFlag::CONTROL, false),
        KeyEvent::Up(Key::Shift) => KeyAction::Flag(KeyboardFlag::LSHIFT, false),
        KeyEvent::Up(_) => KeyAction::Buffer(0, false),
        KeyEvent::Down(Key::Ctrl) => KeyAction::Flag(KeyboardFlag::CONTROL, true),
        KeyEvent::Down(Key::Shift) => KeyAction::Flag(KeyboardFlag::LSHIFT, true),
        KeyEvent::Down(key) => match key_to_char(key) {
            Some(character) => KeyAction::Buffer(character, true),
            None => KeyAction::Ignore,
        },
    }
}

/// The pins after a key event: interrupt 1 is requested where the event puts
/// a character into the buffer of a key that went down.
pub fn pins_after_key(pins: Pins, event: KeyEvent) -> (after: Pins)
    ensures
        after == match key_action(event) {
            KeyAction::Buffer(_, true) => Pins { irq: IrqPin::On(1), ..pins },
            _ => pins,
        },
{
    let mut after = pins;
    match decide_key(event) {
        KeyAction::Buffer(_, true) => {
            after.irq = IrqPin::On(1);
        },
        _ => {},
    }
    after
}

/// The data area of a BIOS after a key action: the first entry of shift
/// flags with the modifier switched, or the first keyboard buffer with the
/// character in it. `None` where the data area has no such entry.
pub open spec fn keyed_data(data: Seq<BDAData>, action: KeyAction) -> Option<Seq<BDAData>> {
    match action {
        KeyAction::Flag(flag, value) => match first_shift_flags(data, 0) {
            Some(at) => Some(
                data.update(
                    at,
                    match data[at] {
                        BDAData::KeyboardShiftFlags { read_only, data, range_start, range_end } => (
                            BDAData::KeyboardShiftFlags {
                                read_only,
                                data: data.with(flag, value),
                                range_start,
                                range_end,
                            }
                        ),
                        other => other,
                    },
                ),
            ),
            None => None,
        },
        KeyAction::Buffer(character, _) => match first_buffer(data, 0) {
            Some(at) => Some(
                data.update(
                    at,
                    match data[at] {
                        BDAData::KeyboardBuffer { read_only, range_start, range_end, .. } => (
                            BDAData::KeyboardBuffer {
                                read_only,
                                data: character,
                                range_start,
                                range_end,
                            }
                        ),
                        other => other,
                    },
                ),
            ),
            None => None,
        },
        KeyAction::Ignore => Some(data),
    }
}

/// The bus after a key event: the BIOS, which must stand at its position on
/// the bus, has taken what the event asks; no other device has changed.
/// `None` where no BIOS stands there, or its data area has no entry for what
/// the event asks.
pub open spec fn keyed_bus(bus: Seq<DeviceModel>, event: KeyEvent) -> Option<Seq<DeviceModel>> {
    if 5 < bus.len() {
        match bus[5] {
            DeviceModel::Bios { start, end, data } => match keyed_data(data, key_action(event)) {
                Some(after) => Some(bus.update(5, DeviceModel::Bios { start, end, data: after })),
                None => None,
            },
            _ => None,
        }
    } else {
        None
    }
}

/// Hands a key action to a device: a BIOS takes it, any other device has no
/// keyboard.
fn device_takes_key(device: &mut AnyDevice, action: KeyAction) -> (done: Result<(), BIOSError>)
    ensures
        match old(device)@ {
            DeviceModel::Bios { start, end, data } => match keyed_data(data, action) {
                Some(after) => done is Ok && final(device)@ == (DeviceModel::Bios {
                    start,
                    end,
                    data: after,
                }),
                None => done is Err && final(device)@ == old(device)@,
            },
            _ => done is Err && final(device)@ == old(device)@,
        },
{
    match device {
        AnyDevice::Bios(bios) => match action {
            KeyAction::Flag(flag, value) => bios.set_keyboard_flag(flag, value),
            KeyAction::Buffer(character, _) => bios.set_keyboard_buffer(character),
            KeyAction::Ignore => Ok(()),
        },
        _ => Err(BIOSError::NoDataSection),
    }
}

/// Takes a key event in: the BIOS of the machine shows the modifier or the
/// character that the event brings, and the pins request interrupt 1 where a
/// key that types a character went down. Where the bus has no BIOS at its
/// position, or the BIOS no entry for the event, nothing changes and the
/// error says so.
pub fn take_key(cpu: &mut CPU, pins: Pins, event: KeyEvent) -> (after: Result<Pins, BIOSError>)
    ensures
        match keyed_bus(old(cpu)@.bus, event) {
            Some(bus) => final(cpu)@ == (CpuState { bus, ..old(cpu)@ }) && after == Ok::<
                Pins,
                BIOSError,
            >(
                match key_action(event) {
                    KeyAction::Buffer(_, true) => Pins { irq: IrqPin::On(1), ..pins },
                    _ => pins,
                },
            ),
            None => final(cpu)@ == old(cpu)@ && after == Err::<Pins, BIOSError>(
                BIOSError::NoDataSection,
            ),
        },
{
    if BIOS_POSITION >= cpu.map.devices.len() {
        return Err(BIOSError::NoDataSection);
    }
    let ghost before = cpu.map@;
    let done = device_takes_key(&mut cpu.map.devices[BIOS_POSITION], decide_key(event));
    proof {
        assert(cpu.map@ =~= before.update(5, cpu.map.devices@[5]@));
        if done is Err {
            assert(cpu.map@ =~= before);
        }
    }
    match done {
        Ok(()) => Ok(pins_after_key(pins, event)),
        Err(_) => Err(BIOSError::NoDataSection),
    }
}

} // verus!
